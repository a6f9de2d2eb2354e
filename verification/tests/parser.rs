use smm2_stats::cursor::{BinaryCursor, ParseError};
use smm2_stats::level_parser::{track_f0, track_f1, track_f2, Level, MapTrack};

const MIN_LEN: usize = 0x2e0e0 + 0x48;

fn put_u16(buf: &mut [u8], off: usize, v: u16) {
    buf[off..off + 2].copy_from_slice(&v.to_le_bytes());
}

fn put_u32(buf: &mut [u8], off: usize, v: u32) {
    buf[off..off + 4].copy_from_slice(&v.to_le_bytes());
}

#[test]
fn parse_zero_filled_minimum_buffer() {
    let buf = vec![0u8; MIN_LEN];
    let level = Level::parse(&buf).unwrap();
    assert_eq!(level.header.start_y, 0);
    assert_eq!(level.header.goal_x, 0);
    assert_eq!(level.header.game_style, 0);
    assert_eq!(level.header.name, "");
    assert_eq!(level.header.description, "");
    for map in [&level.overworld, &level.subworld] {
        assert!(map.objects.is_empty());
        assert!(map.snake_blocks.is_empty());
        assert!(map.clear_pipes.is_empty());
        assert!(map.creepers.is_empty());
        assert!(map.move_blocks.is_empty());
        assert!(map.track_blocks.is_empty());
        assert!(map.ground.is_empty());
        assert!(map.tracks.is_empty());
        assert!(map.ice.is_empty());
    }
}

#[test]
fn parse_short_buffer_is_truncated() {
    let buf = vec![0u8; MIN_LEN - 1];
    assert!(matches!(Level::parse(&buf), Err(ParseError::Truncated)));
}

#[test]
fn parse_nonzero_count_past_end_is_truncated() {
    let mut buf = vec![0u8; MIN_LEN];
    // an object array far larger than the buffer
    put_u32(&mut buf, 0x200 + 0x1c, 0x4000);
    assert!(matches!(Level::parse(&buf), Err(ParseError::Truncated)));
}

#[test]
fn parse_nonzero_nested_count_past_end_is_truncated() {
    let mut buf = vec![0u8; MIN_LEN];
    // one clear pipe in the subworld; its record lies past the buffer end
    put_u32(&mut buf, 0x2e0e0 + 0x28, 1);
    assert!(matches!(Level::parse(&buf), Err(ParseError::Truncated)));

    // now give the buffer room for the pipe record header, but not for the
    // nodes it announces
    let mut buf = vec![0u8; 0x2e0e0 + 0x15ccc + 2];
    put_u32(&mut buf, 0x2e0e0 + 0x28, 1);
    buf[0x2e0e0 + 0x15ccc + 1] = 255;
    assert!(matches!(Level::parse(&buf), Err(ParseError::Truncated)));
}

#[test]
fn parse_extracts_header_and_records() {
    let mut buf = vec![0u8; MIN_LEN];

    // level header
    buf[0] = 3; // start_y
    buf[1] = 2; // goal_y
    put_u16(&mut buf, 2, 0xfffb); // goal_x = -5
    put_u16(&mut buf, 4, 300); // timer
    put_u16(&mut buf, 6, 9); // clear_ca
    put_u16(&mut buf, 8, 2020); // date_year
    buf[10] = 12;
    buf[11] = 31;
    buf[12] = 23;
    buf[13] = 59;
    buf[14] = 1; // autoscroll_speed
    buf[15] = 2; // clear_cc
    put_u32(&mut buf, 16, 199585683); // clear_crc
    put_u32(&mut buf, 20, 4); // game_version
    put_u32(&mut buf, 40, 0x01020304); // upload_id low half
    put_u32(&mut buf, 44, 0x05060708); // upload_id high half
    put_u16(&mut buf, 0xf1, 22349); // game style SMW
    // name "AB", description "\u{3042}"
    put_u16(&mut buf, 0xf4, 0x41);
    put_u16(&mut buf, 0xf6, 0x42);
    put_u16(&mut buf, 0x136, 0x3042);

    let m = 0x200; // overworld region

    // one object: id 0, alternate-item flag, position (-1, 2)
    put_u32(&mut buf, m + 0x1c, 1);
    let o = m + 0x48;
    put_u32(&mut buf, o, 0xffff_ffff); // x = -1
    put_u32(&mut buf, o + 4, 2); // y
    buf[o + 0xa] = 1; // w
    buf[o + 0xb] = 2; // h
    put_u32(&mut buf, o + 0xc, 4); // flag: alternate item
    put_u32(&mut buf, o + 0x10, 5); // cflag
    put_u32(&mut buf, o + 0x14, 6); // ex
    put_u16(&mut buf, o + 0x18, 0); // id
    put_u16(&mut buf, o + 0x1a, 0xffff); // cid = -1
    put_u16(&mut buf, o + 0x1c, 7); // lid
    put_u16(&mut buf, o + 0x1e, 8); // sid

    // one snake block with one node
    put_u32(&mut buf, m + 0x24, 1);
    let s = m + 0x149f8;
    buf[s] = 9; // index, shared with node 0
    buf[s + 1] = 1; // node_count
    buf[s + 6] = 4; // node 0 dir

    // one clear pipe with two nodes
    put_u32(&mut buf, m + 0x28, 1);
    let p = m + 0x15ccc;
    buf[p] = 1; // index
    buf[p + 1] = 2; // node_count
    let n0 = p + 4;
    buf[n0] = 1;
    buf[n0 + 1] = 2;
    buf[n0 + 2] = 3;
    buf[n0 + 3] = 4;
    buf[n0 + 4] = 5;
    buf[n0 + 5] = 6;
    buf[n0 + 7] = 7; // dir
    let n1 = p + 12;
    buf[n1] = 11;
    buf[n1 + 7] = 13;

    // one creeper with two nodes
    put_u32(&mut buf, m + 0x2c, 1);
    let c = m + 0x240ed;
    buf[c] = 3;
    put_u16(&mut buf, c + 1, 2);
    buf[c + 4] = 21;
    buf[c + 8] = 22;

    // one move block with one node
    put_u32(&mut buf, m + 0x30, 1);
    let b = m + 0x24435;
    buf[b] = 5;
    put_u16(&mut buf, b + 1, 1);
    buf[b + 3] = 31;
    buf[b + 4] = 32;
    buf[b + 5] = 33;

    // one track block with no nodes
    put_u32(&mut buf, m + 0x34, 1);
    let tb = m + 0x245ed;
    buf[tb] = 6;
    put_u16(&mut buf, tb + 1, 0);

    // one ground record
    put_u32(&mut buf, m + 0x3c, 1);
    let g = m + 0x247a4;
    buf[g] = 5;
    buf[g + 1] = 6;
    buf[g + 2] = 7;
    buf[g + 3] = 8;

    // one track: shape 10, k0 bit 14 set, k1 bit 6 set
    put_u32(&mut buf, m + 0x40, 1);
    let t = m + 0x28624;
    put_u16(&mut buf, t, 0xfffe); // un = -2
    buf[t + 2] = 9; // flag
    buf[t + 3] = 255; // x: stored 255 means 0
    buf[t + 4] = 3; // y: stored 3 means 4
    buf[t + 5] = 10; // type_
    put_u16(&mut buf, t + 6, 1);
    put_u16(&mut buf, t + 8, 0x4000); // k0
    put_u16(&mut buf, t + 10, 0x40); // k1

    // one ice record
    put_u32(&mut buf, m + 0x44, 1);
    let ic = m + 0x2cc74;
    buf[ic] = 1;
    buf[ic + 1] = 2;
    buf[ic + 2] = 3;
    buf[ic + 3] = 4;

    // map header scalars
    buf[m] = 9; // theme: forest
    buf[m + 2] = 1; // boundary flag
    buf[m + 3] = 1; // orientation

    let level = Level::parse(&buf).unwrap();
    let h = &level.header;
    assert_eq!(h.start_y, 3);
    assert_eq!(h.goal_y, 2);
    assert_eq!(h.goal_x, -5);
    assert_eq!(h.timer, 300);
    assert_eq!(h.clear_ca, 9);
    assert_eq!(h.date_year, 2020);
    assert_eq!((h.date_mon, h.date_day, h.date_hour, h.date_minute), (12, 31, 23, 59));
    assert_eq!(h.autoscroll_speed, 1);
    assert_eq!(h.clear_cc, 2);
    assert_eq!(h.clear_crc, 199585683);
    assert_eq!(h.game_version, 4);
    assert_eq!(h.upload_id, 0x05060708_01020304);
    assert_eq!(h.game_style, 22349);
    assert_eq!(h.name, "AB");
    assert_eq!(h.description, "\u{3042}");
    assert_eq!(h.game_style_str(), Some("SMW"));
    assert_eq!(h.clear_condition_category_str(), Some("Status"));
    assert_eq!(h.game_version_str(), Some("1.0.0"));
    assert_eq!(
        h.clear_condition_str(),
        Some("Reach the goal after defeating at least/all 9 Mechakoopa(s).".to_string())
    );
    assert_eq!(h.autoscroll_speed_str(), Some("x2"));

    let ow = &level.overworld;
    assert_eq!(ow.map_header.theme, 9);
    assert_eq!(ow.map_header.theme_str(), Some("Forest"));
    assert_eq!(ow.map_header.autoscroll_type_str(), Some("None"));
    assert_eq!(ow.map_header.boundary_type_str(), Some("Built Below Line"));
    assert_eq!(ow.map_header.orientation_str(), Some("Vertical"));
    assert_eq!(ow.map_header.liquid_mode_str(), Some("Static"));
    assert_eq!(ow.map_header.liquid_speed_str(), Some("None"));
    assert_eq!(ow.objects.len(), 1);
    let obj = &ow.objects[0];
    assert_eq!(obj.x, -1);
    assert_eq!(obj.y, 2);
    assert_eq!((obj.w, obj.h), (1, 2));
    assert_eq!((obj.flag, obj.cflag, obj.ex), (4, 5, 6));
    assert_eq!((obj.id, obj.cid, obj.lid, obj.sid), (0, -1, 7, 8));
    assert_eq!(obj.name(h.game_style), Some("Goombud"));

    assert_eq!(ow.snake_blocks.len(), 1);
    let sb = &ow.snake_blocks[0];
    assert_eq!(sb.index, 9);
    assert_eq!(sb.node_count, 1);
    assert_eq!(sb.nodes.len(), 1);
    assert_eq!(sb.nodes[0].index, 9);
    assert_eq!(sb.nodes[0].dir, 4);

    assert_eq!(ow.clear_pipes.len(), 1);
    let cp = &ow.clear_pipes[0];
    assert_eq!((cp.index, cp.node_count), (1, 2));
    assert_eq!(cp.nodes.len(), 2);
    let cn = &cp.nodes[0];
    assert_eq!(
        (cn.type_, cn.index, cn.x, cn.y, cn.w, cn.h, cn.dir),
        (1, 2, 3, 4, 5, 6, 7)
    );
    assert_eq!((cp.nodes[1].type_, cp.nodes[1].dir), (11, 13));

    assert_eq!(ow.creepers.len(), 1);
    let cr = &ow.creepers[0];
    assert_eq!((cr.index, cr.node_count), (3, 2));
    assert_eq!(cr.nodes, vec![21, 22]);

    assert_eq!(ow.move_blocks.len(), 1);
    let mb = &ow.move_blocks[0];
    assert_eq!((mb.index, mb.node_count), (5, 1));
    assert_eq!((mb.nodes[0].p0, mb.nodes[0].p1, mb.nodes[0].p2), (31, 32, 33));

    assert_eq!(ow.track_blocks.len(), 1);
    assert_eq!((ow.track_blocks[0].index, ow.track_blocks[0].node_count), (6, 0));
    assert!(ow.track_blocks[0].nodes.is_empty());

    assert_eq!(ow.ground.len(), 1);
    let gr = &ow.ground[0];
    assert_eq!((gr.x, gr.y, gr.id, gr.bid), (5, 6, 7, 8));

    assert_eq!(ow.tracks.len(), 1);
    let tr = &ow.tracks[0];
    assert_eq!(tr.un, -2);
    assert_eq!(tr.flag, 9);
    assert_eq!(tr.x, 0);
    assert_eq!(tr.y, 4);
    assert_eq!(tr.type_, 10);
    assert_eq!(tr.lid, 1);
    assert_eq!((tr.k0, tr.k1), (0x4000, 0x40));
    assert_eq!(tr.f0, 0); // complement of bit 14 of k0
    assert_eq!(tr.f1, 1);
    assert_eq!(tr.f2, 0);

    assert_eq!(ow.ice.len(), 1);
    assert_eq!(ow.ice[0].id, 3);

    // the subworld stays empty
    assert!(level.subworld.objects.is_empty());
    assert!(level.subworld.tracks.is_empty());
}

#[test]
fn track_f0_complements_bit_14_for_shape_10() {
    let pairs: [(u16, u8); 5] = [
        (0x0000, 1),
        (0x4000, 0),
        (0xbfff, 1),
        (0xffff, 0),
        (0x7fff, 0),
    ];
    for &(k0, want) in pairs.iter() {
        assert_eq!(track_f0(10, k0, 0), want);
        assert_eq!(track_f0(10, k0, 0xffff), want);
    }
}

#[test]
fn track_bits_for_low_shapes() {
    // shapes 0 to 7 take f0 from bit 7 of k0 and f1 from bit 7 of k1
    assert_eq!(track_f0(0, 0x80, 0), 1);
    assert_eq!(track_f0(0, 0x7f, 0), 0);
    assert_eq!(track_f1(3, 0, 0x80), 1);
    assert_eq!(track_f2(3, 0, 0), 0);
    // shape 8 takes f2 from bit 15 of k0
    assert_eq!(track_f2(8, 0x8000, 0), 1);
}

#[test]
fn track_parse_shifts_coordinates() {
    // a lone track record in a 12-byte buffer
    let mut rec = [0u8; 12];
    rec[3] = 41;
    rec[4] = 255;
    rec[5] = 1;
    let mut cur = BinaryCursor::new(&rec);
    let t: MapTrack = MapTrack::parse(&mut cur).unwrap();
    assert_eq!(t.x, 42);
    assert_eq!(t.y, 0);
}

#[test]
fn cursor_reads_little_endian() {
    let data: [u8; 8] = [0x01, 0x02, 0x03, 0x04, 0xff, 0xff, 0xff, 0x7f];
    let mut cur = BinaryCursor::new(&data);
    assert_eq!(cur.read_u16(), Ok(0x0201));
    cur.seek(0);
    assert_eq!(cur.read_u32(), Ok(0x04030201));
    assert_eq!(cur.read_i32(), Ok(0x7fffffff));
    cur.seek(4);
    assert_eq!(cur.read_i16(), Ok(-1));
    cur.seek(0);
    assert_eq!(cur.read_u64(), Ok(0x7fffffff_04030201));
    assert_eq!(cur.read_u8(), Err(ParseError::Truncated));
}

#[test]
fn cursor_wcstring_without_terminator_is_truncated() {
    let data: [u8; 4] = [0x41, 0x00, 0x42, 0x00];
    let mut cur = BinaryCursor::new(&data);
    assert_eq!(cur.read_wcstring(), Err(ParseError::Truncated));
}

#[test]
fn cursor_wcstring_decodes_utf16() {
    let data: [u8; 8] = [0x42, 0x30, 0x41, 0x00, 0x00, 0x00, 0x99, 0x99];
    let mut cur = BinaryCursor::new(&data);
    assert_eq!(cur.read_wcstring(), Ok("\u{3042}A".to_string()));
}
