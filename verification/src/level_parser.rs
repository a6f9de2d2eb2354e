//! Structural parsing of a decrypted course file into a typed `Level`: a
//! header, then two maps ("overworld" and "subworld") at fixed offsets, each
//! map holding a dozen record arrays whose counts come from the map header
//! and whose records sit at fixed per-kind base offsets and strides.

pub mod grid;
pub mod resolve;

pub use grid::{ground_occupancy, OccupancyGrid};
pub use resolve::{
    num_to_autoscroll_speed, num_to_autoscroll_type, num_to_boundary_type, num_to_clear_condition,
    num_to_clear_condition_category, num_to_game_style, num_to_game_version, num_to_liquid_mode,
    num_to_liquid_speed, num_to_name, num_to_orientation, num_to_theme, FLAG_ALT_ITEM,
    FLAG_IS_KEY_DOOR, FLAG_IS_P_DOOR, GAME_STYLE_NSMBU, GAME_STYLE_SM3DW, GAME_STYLE_SMB1,
    GAME_STYLE_SMB3, GAME_STYLE_SMW,
};

use vstd::prelude::*;

use crate::cursor::{
    as_i16, as_i32, le_u16, le_u32, le_u64, utf16_lossy_of, wcstr_terminated, wcstr_units,
    BinaryCursor, ParseError,
};

verus! {

#[derive(Debug)]
pub struct Point {
    pub is_empty: bool,
    pub x: i32,
    pub y: i32,
}

#[derive(Debug)]
pub struct LevelHeader {
    pub start_y: u8,
    pub goal_y: u8,
    pub goal_x: i16,
    pub timer: u16,
    pub clear_ca: u16,
    pub date_year: u16,
    pub date_mon: u8,
    pub date_day: u8,
    pub date_hour: u8,
    pub date_minute: u8,
    pub autoscroll_speed: u8,
    pub clear_cc: u8,
    pub clear_crc: u32,
    pub game_version: u32,
    pub m_flag: u32,
    pub clear_attempts: u32,
    pub clear_time: u32,
    pub creation_id: u32,
    pub upload_id: u64,
    pub clear_version: u32,
    pub game_style: u16,
    pub name: String,
    pub description: String,
}

#[derive(Debug, PartialEq, Eq)]
pub struct MapHeader {
    pub theme: u8,
    pub autoscroll_type: u8,
    pub bor_flag: u8,
    pub ori: u8,
    pub liq_e_height: u8,
    pub liq_mode: u8,
    pub liq_speed: u8,
    pub liq_s_height: u8,
    pub b_or_r: u32,
    pub b_or_t: u32,
    pub b_or_l: u32,
    pub b_or_b: u32,
    pub flag: u32,
    pub object_count: u32,
    pub sound_count: u32,
    pub snake_count: u32,
    pub clear_pipe_count: u32,
    pub creeper_count: u32,
    pub iblk_count: u32,
    pub track_block_count: u32,
    pub ground_count: u32,
    pub track_count: u32,
    pub ice_count: u32,
}

#[derive(Debug, PartialEq, Eq)]
pub struct MapObject {
    pub x: i32,
    pub y: i32,
    pub w: u8,
    pub h: u8,
    pub flag: u32,
    pub cflag: u32,
    pub ex: u32,
    pub id: i16,
    pub cid: i16,
    pub lid: i16,
    pub sid: i16,
    pub link_type: u8,
}

#[derive(Debug, PartialEq, Eq)]
pub struct MapGround {
    pub x: u8,
    pub y: u8,
    pub id: u8,
    pub bid: u8,
}

#[derive(Debug, PartialEq, Eq)]
pub struct MapTrack {
    pub un: i16,
    pub flag: u8,
    pub x: u8,
    pub y: u8,
    pub type_: u8,
    pub lid: i16,
    pub k0: u16,
    pub k1: u16,
    pub f0: u8,
    pub f1: u8,
    pub f2: u8,
}

#[derive(Debug, PartialEq, Eq)]
pub struct MapClearPipeNode {
    pub type_: u8,
    pub index: u8,
    pub x: u8,
    pub y: u8,
    pub w: u8,
    pub h: u8,
    pub dir: u8,
}

#[derive(Debug, PartialEq, Eq)]
pub struct MapClearPipe {
    pub index: u8,
    pub node_count: u8,
    pub nodes: Vec<MapClearPipeNode>,
}

#[derive(Debug, PartialEq, Eq)]
pub struct MapSnakeBlockNode {
    pub index: u8,
    pub dir: u8,
}

#[derive(Debug, PartialEq, Eq)]
pub struct MapSnakeBlock {
    pub index: u8,
    pub node_count: u8,
    pub nodes: Vec<MapSnakeBlockNode>,
}

#[derive(Debug, PartialEq, Eq)]
pub struct MapMoveBlockNode {
    pub p0: u8,
    pub p1: u8,
    pub p2: u8,
}

#[derive(Debug, PartialEq, Eq)]
pub struct MapMoveBlock {
    pub index: u8,
    pub node_count: u16,
    pub nodes: Vec<MapMoveBlockNode>,
}

#[derive(Debug, PartialEq, Eq)]
pub struct MapCreeper {
    pub index: u8,
    pub node_count: u16,
    pub nodes: Vec<u8>,
}

#[derive(Debug)]
pub struct ObjStr {
    pub obj: String,
    pub flag: String,
    pub state: String,
    pub sub_obj: String,
    pub sub_flag: String,
    pub sub_state: String,
}

pub struct Level {
    pub header: LevelHeader,
    pub overworld: LevelMap,
    pub subworld: LevelMap,
}

pub struct LevelMap {
    pub map_header: MapHeader,
    pub clear_pipes: Vec<MapClearPipe>,
    pub snake_blocks: Vec<MapSnakeBlock>,
    pub move_blocks: Vec<MapMoveBlock>,
    pub track_blocks: Vec<MapMoveBlock>,
    pub creepers: Vec<MapCreeper>,
    pub objects: Vec<MapObject>,
    pub ground: Vec<MapGround>,
    pub ice: Vec<MapGround>,
    pub tracks: Vec<MapTrack>,
}

/// The first derived track bit: which of `k0`/`k1` it comes from and at what
/// bit position depends on the track shape `type_`; shape 10 inverts the bit.
pub open spec fn spec_track_f0(type_: u8, k0: u16, k1: u16) -> u8 {
    if type_ <= 7 || type_ == 11 || type_ == 15 {
        ((k0 / 0x80) % 2) as u8
    } else if type_ == 8 {
        ((k1 / 0x80) % 2) as u8
    } else if type_ == 9 {
        ((k1 / 0x40) % 2) as u8
    } else if type_ == 10 {
        (1 - (k0 / 0x4000) % 2) as u8
    } else if type_ == 12 || type_ == 13 {
        ((k1 / 0x800) % 2) as u8
    } else if type_ == 14 {
        ((k0 / 0x1000) % 2) as u8
    } else {
        0
    }
}

/// The second derived track bit, by shape.
pub open spec fn spec_track_f1(type_: u8, k0: u16, k1: u16) -> u8 {
    if type_ <= 7 {
        ((k1 / 0x80) % 2) as u8
    } else if type_ == 8 || type_ == 12 {
        ((k0 / 0x80) % 2) as u8
    } else if type_ == 9 || type_ == 11 {
        ((k1 / 0x2) % 2) as u8
    } else if type_ == 10 {
        ((k1 / 0x40) % 2) as u8
    } else if type_ == 13 || type_ == 15 {
        ((k0 / 0x1000) % 2) as u8
    } else if type_ == 14 {
        ((k1 / 0x800) % 2) as u8
    } else {
        0
    }
}

/// The third derived track bit, by shape.
pub open spec fn spec_track_f2(type_: u8, k0: u16, k1: u16) -> u8 {
    if type_ == 8 {
        ((k0 / 0x8000) % 2) as u8
    } else if type_ == 9 || type_ == 10 || type_ == 13 || type_ == 14 {
        ((k0 / 0x80) % 2) as u8
    } else if type_ == 11 {
        ((k1 / 0x40) % 2) as u8
    } else if type_ == 12 {
        ((k0 / 0x1000) % 2) as u8
    } else if type_ == 15 {
        ((k1 / 0x800) % 2) as u8
    } else {
        0
    }
}

pub fn track_f0(type_: u8, k0: u16, k1: u16) -> (r: u8)
    ensures
        r == spec_track_f0(type_, k0, k1),
{
    if type_ <= 7 || type_ == 11 || type_ == 15 {
        ((k0 / 0x80) % 2) as u8
    } else if type_ == 8 {
        ((k1 / 0x80) % 2) as u8
    } else if type_ == 9 {
        ((k1 / 0x40) % 2) as u8
    } else if type_ == 10 {
        (1 - (k0 / 0x4000) % 2) as u8
    } else if type_ == 12 || type_ == 13 {
        ((k1 / 0x800) % 2) as u8
    } else if type_ == 14 {
        ((k0 / 0x1000) % 2) as u8
    } else {
        0
    }
}

pub fn track_f1(type_: u8, k0: u16, k1: u16) -> (r: u8)
    ensures
        r == spec_track_f1(type_, k0, k1),
{
    if type_ <= 7 {
        ((k1 / 0x80) % 2) as u8
    } else if type_ == 8 || type_ == 12 {
        ((k0 / 0x80) % 2) as u8
    } else if type_ == 9 || type_ == 11 {
        ((k1 / 0x2) % 2) as u8
    } else if type_ == 10 {
        ((k1 / 0x40) % 2) as u8
    } else if type_ == 13 || type_ == 15 {
        ((k0 / 0x1000) % 2) as u8
    } else if type_ == 14 {
        ((k1 / 0x800) % 2) as u8
    } else {
        0
    }
}

pub fn track_f2(type_: u8, k0: u16, k1: u16) -> (r: u8)
    ensures
        r == spec_track_f2(type_, k0, k1),
{
    if type_ == 8 {
        ((k0 / 0x8000) % 2) as u8
    } else if type_ == 9 || type_ == 10 || type_ == 13 || type_ == 14 {
        ((k0 / 0x80) % 2) as u8
    } else if type_ == 11 {
        ((k1 / 0x40) % 2) as u8
    } else if type_ == 12 {
        ((k0 / 0x1000) % 2) as u8
    } else if type_ == 15 {
        ((k1 / 0x800) % 2) as u8
    } else {
        0
    }
}

/// For shape 10 the first derived bit is the complement of bit 14 of `k0`.
pub proof fn lemma_track_f0_shape10_complement(k0: u16, k1: u16)
    ensures
        spec_track_f0(10, k0, k1) == 1 - ((k0 / 0x4000) % 2),
        spec_track_f0(10, k0, k1) == 0 <==> (k0 / 0x4000) % 2 == 1,
{
}

/// The raw track x/y coordinates are stored shifted: 255 means 0, anything
/// else is one more than stored.
pub open spec fn track_coord(b: u8) -> u8 {
    if b == 255 {
        0
    } else {
        (b + 1) as u8
    }
}

/// The map header whose bytes start at `s`.
pub open spec fn map_header_at(d: Seq<u8>, s: int) -> MapHeader {
    MapHeader {
        theme: d[s],
        autoscroll_type: d[s + 1],
        bor_flag: d[s + 2],
        ori: d[s + 3],
        liq_e_height: d[s + 4],
        liq_mode: d[s + 5],
        liq_speed: d[s + 6],
        liq_s_height: d[s + 7],
        b_or_r: le_u32(d, s + 8),
        b_or_t: le_u32(d, s + 12),
        b_or_l: le_u32(d, s + 16),
        b_or_b: le_u32(d, s + 20),
        flag: le_u32(d, s + 24),
        object_count: le_u32(d, s + 28),
        sound_count: le_u32(d, s + 32),
        snake_count: le_u32(d, s + 36),
        clear_pipe_count: le_u32(d, s + 40),
        creeper_count: le_u32(d, s + 44),
        iblk_count: le_u32(d, s + 48),
        track_block_count: le_u32(d, s + 52),
        ground_count: le_u32(d, s + 0x3c),
        track_count: le_u32(d, s + 0x40),
        ice_count: le_u32(d, s + 0x44),
    }
}

/// The object record whose bytes start at `s` (0x20 bytes).
pub open spec fn object_at(d: Seq<u8>, s: int) -> MapObject {
    MapObject {
        x: as_i32(le_u32(d, s)),
        y: as_i32(le_u32(d, s + 4)),
        w: d[s + 0xa],
        h: d[s + 0xb],
        flag: le_u32(d, s + 0xc),
        cflag: le_u32(d, s + 0x10),
        ex: le_u32(d, s + 0x14),
        id: as_i16(le_u16(d, s + 0x18)),
        cid: as_i16(le_u16(d, s + 0x1a)),
        lid: as_i16(le_u16(d, s + 0x1c)),
        sid: as_i16(le_u16(d, s + 0x1e)),
        link_type: 0,
    }
}

/// The ground (or ice) record whose bytes start at `s` (4 bytes).
pub open spec fn ground_at(d: Seq<u8>, s: int) -> MapGround {
    MapGround { x: d[s], y: d[s + 1], id: d[s + 2], bid: d[s + 3] }
}

/// The track record whose bytes start at `s` (12 bytes), with its three
/// derived bits.
pub open spec fn track_at(d: Seq<u8>, s: int) -> MapTrack {
    let type_ = d[s + 5];
    let k0 = le_u16(d, s + 8);
    let k1 = le_u16(d, s + 10);
    MapTrack {
        un: as_i16(le_u16(d, s)),
        flag: d[s + 2],
        x: track_coord(d[s + 3]),
        y: track_coord(d[s + 4]),
        type_: type_,
        lid: as_i16(le_u16(d, s + 6)),
        k0: k0,
        k1: k1,
        f0: spec_track_f0(type_, k0, k1),
        f1: spec_track_f1(type_, k0, k1),
        f2: spec_track_f2(type_, k0, k1),
    }
}

/// The clear-pipe node whose bytes start at `s` (8 bytes).
pub open spec fn clear_pipe_node_at(d: Seq<u8>, s: int) -> MapClearPipeNode {
    MapClearPipeNode {
        type_: d[s],
        index: d[s + 1],
        x: d[s + 2],
        y: d[s + 3],
        w: d[s + 4],
        h: d[s + 5],
        dir: d[s + 7],
    }
}

/// The snake-block node whose bytes start at `s` (7 bytes).
pub open spec fn snake_block_node_at(d: Seq<u8>, s: int) -> MapSnakeBlockNode {
    MapSnakeBlockNode { index: d[s], dir: d[s + 6] }
}

/// The move-block node whose bytes start at `s` (3 bytes).
pub open spec fn move_block_node_at(d: Seq<u8>, s: int) -> MapMoveBlockNode {
    MapMoveBlockNode { p0: d[s], p1: d[s + 1], p2: d[s + 2] }
}

impl MapObject {
    pub fn parse(cur: &mut BinaryCursor) -> (r: Result<MapObject, ParseError>)
        ensures
            final(cur).sdata() == old(cur).sdata(),
            r is Ok <==> old(cur).spos() + 0x20 <= old(cur).sdata().len(),
            r matches Ok(o) ==> o == object_at(old(cur).sdata(), old(cur).spos()),
            r matches Err(e) ==> e == ParseError::Truncated,
    {
        let start = cur.pos();
        let data_len = cur.len();
        if start > data_len || data_len - start < 0x20 {
            return Err(ParseError::Truncated);
        }
        let x = cur.read_i32()?;
        let y = cur.read_i32()?;
        cur.seek(start + 0xa);
        let w = cur.read_u8()?;
        let h = cur.read_u8()?;
        let flag = cur.read_u32()?;
        let cflag = cur.read_u32()?;
        let ex = cur.read_u32()?;
        let id = cur.read_i16()?;
        let cid = cur.read_i16()?;
        let lid = cur.read_i16()?;
        let sid = cur.read_i16()?;
        Ok(MapObject { x, y, w, h, flag, cflag, ex, id, cid, lid, sid, link_type: 0 })
    }
}

impl MapGround {
    pub fn parse(cur: &mut BinaryCursor) -> (r: Result<MapGround, ParseError>)
        ensures
            final(cur).sdata() == old(cur).sdata(),
            r is Ok <==> old(cur).spos() + 4 <= old(cur).sdata().len(),
            r matches Ok(g) ==> g == ground_at(old(cur).sdata(), old(cur).spos()),
            r matches Err(e) ==> e == ParseError::Truncated,
    {
        let start = cur.pos();
        let data_len = cur.len();
        if start > data_len || data_len - start < 4 {
            return Err(ParseError::Truncated);
        }
        let x = cur.read_u8()?;
        let y = cur.read_u8()?;
        let id = cur.read_u8()?;
        let bid = cur.read_u8()?;
        Ok(MapGround { x, y, id, bid })
    }
}

impl MapTrack {
    pub fn parse(cur: &mut BinaryCursor) -> (r: Result<MapTrack, ParseError>)
        ensures
            final(cur).sdata() == old(cur).sdata(),
            r is Ok <==> old(cur).spos() + 12 <= old(cur).sdata().len(),
            r matches Ok(t) ==> t == track_at(old(cur).sdata(), old(cur).spos()),
            r matches Err(e) ==> e == ParseError::Truncated,
    {
        let start = cur.pos();
        let data_len = cur.len();
        if start > data_len || data_len - start < 12 {
            return Err(ParseError::Truncated);
        }
        let un = cur.read_i16()?;
        let flag = cur.read_u8()?;
        let tx = cur.read_u8()?;
        let x = if tx == 255 {
            0
        } else {
            tx + 1
        };
        let ty = cur.read_u8()?;
        let y = if ty == 255 {
            0
        } else {
            ty + 1
        };
        let type_ = cur.read_u8()?;
        let lid = cur.read_i16()?;
        let k0 = cur.read_u16()?;
        let k1 = cur.read_u16()?;
        let f0 = track_f0(type_, k0, k1);
        let f1 = track_f1(type_, k0, k1);
        let f2 = track_f2(type_, k0, k1);
        Ok(MapTrack { un, flag, x, y, type_, lid, k0, k1, f0, f1, f2 })
    }
}

impl MapClearPipeNode {
    pub fn parse(cur: &mut BinaryCursor) -> (r: Result<MapClearPipeNode, ParseError>)
        ensures
            final(cur).sdata() == old(cur).sdata(),
            r is Ok <==> old(cur).spos() + 8 <= old(cur).sdata().len(),
            r matches Ok(n) ==> n == clear_pipe_node_at(old(cur).sdata(), old(cur).spos()),
            r matches Err(e) ==> e == ParseError::Truncated,
    {
        let start = cur.pos();
        let data_len = cur.len();
        if start > data_len || data_len - start < 8 {
            return Err(ParseError::Truncated);
        }
        let type_ = cur.read_u8()?;
        let index = cur.read_u8()?;
        let x = cur.read_u8()?;
        let y = cur.read_u8()?;
        let w = cur.read_u8()?;
        let h = cur.read_u8()?;
        cur.seek(start + 0x7);
        let dir = cur.read_u8()?;
        Ok(MapClearPipeNode { type_, index, x, y, w, h, dir })
    }
}

impl MapSnakeBlockNode {
    pub fn parse(cur: &mut BinaryCursor) -> (r: Result<MapSnakeBlockNode, ParseError>)
        ensures
            final(cur).sdata() == old(cur).sdata(),
            r is Ok <==> old(cur).spos() + 7 <= old(cur).sdata().len(),
            r matches Ok(n) ==> n == snake_block_node_at(old(cur).sdata(), old(cur).spos()),
            r matches Err(e) ==> e == ParseError::Truncated,
    {
        let start = cur.pos();
        let data_len = cur.len();
        if start > data_len || data_len - start < 7 {
            return Err(ParseError::Truncated);
        }
        let index = cur.read_u8()?;
        cur.seek(start + 0x6);
        let dir = cur.read_u8()?;
        Ok(MapSnakeBlockNode { index, dir })
    }
}

impl MapMoveBlockNode {
    pub fn parse(cur: &mut BinaryCursor) -> (r: Result<MapMoveBlockNode, ParseError>)
        ensures
            final(cur).sdata() == old(cur).sdata(),
            r is Ok <==> old(cur).spos() + 3 <= old(cur).sdata().len(),
            r matches Ok(n) ==> n == move_block_node_at(old(cur).sdata(), old(cur).spos()),
            r matches Err(e) ==> e == ParseError::Truncated,
    {
        let start = cur.pos();
        let data_len = cur.len();
        if start > data_len || data_len - start < 3 {
            return Err(ParseError::Truncated);
        }
        let p0 = cur.read_u8()?;
        let p1 = cur.read_u8()?;
        let p2 = cur.read_u8()?;
        Ok(MapMoveBlockNode { p0, p1, p2 })
    }
}


/// Whether the clear-pipe record at `s` (a 2-byte header, then 8-byte nodes
/// at `s + 4 + 8k`, as many as the header's node count) lies inside the
/// buffer.
pub open spec fn clear_pipe_ok(d: Seq<u8>, s: int) -> bool {
    &&& s + 2 <= d.len()
    &&& (d[s + 1] == 0 || s + 4 + 8 * (d[s + 1] - 1) + 8 <= d.len())
}

pub open spec fn clear_pipe_matches(p: MapClearPipe, d: Seq<u8>, s: int) -> bool {
    &&& p.index == d[s]
    &&& p.node_count == d[s + 1]
    &&& p.nodes@.len() == d[s + 1]
    &&& forall|k: int| 0 <= k < d[s + 1] ==> p.nodes@[k] == clear_pipe_node_at(d, s + 4 + 8 * k)
}

/// Whether the snake-block record at `s` (a 2-byte header; its 7-byte nodes
/// start at `s + 8k`, the first overlapping the header) lies inside the
/// buffer.
pub open spec fn snake_block_ok(d: Seq<u8>, s: int) -> bool {
    &&& s + 2 <= d.len()
    &&& (d[s + 1] == 0 || s + 8 * (d[s + 1] - 1) + 7 <= d.len())
}

pub open spec fn snake_block_matches(b: MapSnakeBlock, d: Seq<u8>, s: int) -> bool {
    &&& b.index == d[s]
    &&& b.node_count == d[s + 1]
    &&& b.nodes@.len() == d[s + 1]
    &&& forall|k: int| 0 <= k < d[s + 1] ==> b.nodes@[k] == snake_block_node_at(d, s + 8 * k)
}

/// Whether the move-block record at `s` (a 3-byte header, then 3-byte nodes
/// at `s + 3 + 4k`) lies inside the buffer.
pub open spec fn move_block_ok(d: Seq<u8>, s: int) -> bool {
    &&& s + 3 <= d.len()
    &&& (le_u16(d, s + 1) == 0 || s + 3 + 4 * (le_u16(d, s + 1) - 1) + 3 <= d.len())
}

pub open spec fn move_block_matches(b: MapMoveBlock, d: Seq<u8>, s: int) -> bool {
    &&& b.index == d[s]
    &&& b.node_count == le_u16(d, s + 1)
    &&& b.nodes@.len() == le_u16(d, s + 1)
    &&& forall|k: int| 0 <= k < le_u16(d, s + 1) ==> b.nodes@[k] == move_block_node_at(
        d,
        s + 3 + 4 * k,
    )
}

/// Whether the creeper record at `s` (a 3-byte header, then one byte at
/// `s + 4 + 4k` per node) lies inside the buffer.
pub open spec fn creeper_ok(d: Seq<u8>, s: int) -> bool {
    &&& s + 3 <= d.len()
    &&& (le_u16(d, s + 1) == 0 || s + 4 + 4 * (le_u16(d, s + 1) - 1) + 1 <= d.len())
}

pub open spec fn creeper_matches(c: MapCreeper, d: Seq<u8>, s: int) -> bool {
    &&& c.index == d[s]
    &&& c.node_count == le_u16(d, s + 1)
    &&& c.nodes@.len() == le_u16(d, s + 1)
    &&& forall|k: int| 0 <= k < le_u16(d, s + 1) ==> c.nodes@[k] == d[s + 4 + 4 * k]
}

impl MapClearPipe {
    pub fn parse(cur: &mut BinaryCursor) -> (r: Result<MapClearPipe, ParseError>)
        ensures
            final(cur).sdata() == old(cur).sdata(),
            r is Ok <==> clear_pipe_ok(old(cur).sdata(), old(cur).spos()),
            r matches Ok(p) ==> clear_pipe_matches(p, old(cur).sdata(), old(cur).spos()),
            r matches Err(e) ==> e == ParseError::Truncated,
    {
        let ghost d = old(cur).sdata();
        let start = cur.pos();
        let data_len = cur.len();
        if start > data_len || data_len - start < 2 {
            return Err(ParseError::Truncated);
        }
        let index = cur.read_u8()?;
        let node_count = cur.read_u8()?;
        if node_count > 0 && data_len - start < 4 + 8 * (node_count as usize - 1) + 8 {
            return Err(ParseError::Truncated);
        }
        let mut nodes: Vec<MapClearPipeNode> = Vec::new();
        let mut k: usize = 0;
        while k < node_count as usize
            invariant
                cur.sdata() == d,
                d == old(cur).sdata(),
                start == old(cur).spos(),
                data_len == d.len(),
                start + 2 <= data_len,
                index == d[start as int],
                node_count == d[start as int + 1],
                node_count > 0 ==> start + 4 + 8 * (node_count - 1) + 8 <= data_len,
                k <= node_count,
                nodes@.len() == k,
                forall|j: int| 0 <= j < k ==> nodes@[j] == clear_pipe_node_at(
                    d,
                    start + 4 + 8 * j,
                ),
            decreases node_count as int - k,
        {
            cur.seek(start + 4 + 8 * k);
            let node = MapClearPipeNode::parse(cur)?;
            nodes.push(node);
            k = k + 1;
        }
        Ok(MapClearPipe { index, node_count, nodes })
    }
}

impl MapSnakeBlock {
    pub fn parse(cur: &mut BinaryCursor) -> (r: Result<MapSnakeBlock, ParseError>)
        ensures
            final(cur).sdata() == old(cur).sdata(),
            r is Ok <==> snake_block_ok(old(cur).sdata(), old(cur).spos()),
            r matches Ok(b) ==> snake_block_matches(b, old(cur).sdata(), old(cur).spos()),
            r matches Err(e) ==> e == ParseError::Truncated,
    {
        let ghost d = old(cur).sdata();
        let start = cur.pos();
        let data_len = cur.len();
        if start > data_len || data_len - start < 2 {
            return Err(ParseError::Truncated);
        }
        let index = cur.read_u8()?;
        let node_count = cur.read_u8()?;
        if node_count > 0 && data_len - start < 8 * (node_count as usize - 1) + 7 {
            return Err(ParseError::Truncated);
        }
        let mut nodes: Vec<MapSnakeBlockNode> = Vec::new();
        let mut k: usize = 0;
        while k < node_count as usize
            invariant
                cur.sdata() == d,
                d == old(cur).sdata(),
                start == old(cur).spos(),
                data_len == d.len(),
                start + 2 <= data_len,
                index == d[start as int],
                node_count == d[start as int + 1],
                node_count > 0 ==> start + 8 * (node_count - 1) + 7 <= data_len,
                k <= node_count,
                nodes@.len() == k,
                forall|j: int| 0 <= j < k ==> nodes@[j] == snake_block_node_at(d, start + 8 * j),
            decreases node_count as int - k,
        {
            cur.seek(start + 8 * k);
            let node = MapSnakeBlockNode::parse(cur)?;
            nodes.push(node);
            k = k + 1;
        }
        Ok(MapSnakeBlock { index, node_count, nodes })
    }
}

impl MapMoveBlock {
    pub fn parse(cur: &mut BinaryCursor) -> (r: Result<MapMoveBlock, ParseError>)
        ensures
            final(cur).sdata() == old(cur).sdata(),
            r is Ok <==> move_block_ok(old(cur).sdata(), old(cur).spos()),
            r matches Ok(b) ==> move_block_matches(b, old(cur).sdata(), old(cur).spos()),
            r matches Err(e) ==> e == ParseError::Truncated,
    {
        let ghost d = old(cur).sdata();
        let start = cur.pos();
        let data_len = cur.len();
        if start > data_len || data_len - start < 3 {
            return Err(ParseError::Truncated);
        }
        let index = cur.read_u8()?;
        let node_count = cur.read_u16()?;
        if node_count > 0 && data_len - start < 3 + 4 * (node_count as usize - 1) + 3 {
            return Err(ParseError::Truncated);
        }
        let mut nodes: Vec<MapMoveBlockNode> = Vec::new();
        let mut k: usize = 0;
        while k < node_count as usize
            invariant
                cur.sdata() == d,
                d == old(cur).sdata(),
                start == old(cur).spos(),
                data_len == d.len(),
                start + 3 <= data_len,
                index == d[start as int],
                node_count == le_u16(d, start as int + 1),
                node_count > 0 ==> start + 3 + 4 * (node_count - 1) + 3 <= data_len,
                k <= node_count,
                nodes@.len() == k,
                forall|j: int| 0 <= j < k ==> nodes@[j] == move_block_node_at(
                    d,
                    start + 3 + 4 * j,
                ),
            decreases node_count as int - k,
        {
            cur.seek(start + 3 + 4 * k);
            let node = MapMoveBlockNode::parse(cur)?;
            nodes.push(node);
            k = k + 1;
        }
        Ok(MapMoveBlock { index, node_count, nodes })
    }
}

impl MapCreeper {
    pub fn parse(cur: &mut BinaryCursor) -> (r: Result<MapCreeper, ParseError>)
        ensures
            final(cur).sdata() == old(cur).sdata(),
            r is Ok <==> creeper_ok(old(cur).sdata(), old(cur).spos()),
            r matches Ok(c) ==> creeper_matches(c, old(cur).sdata(), old(cur).spos()),
            r matches Err(e) ==> e == ParseError::Truncated,
    {
        let ghost d = old(cur).sdata();
        let start = cur.pos();
        let data_len = cur.len();
        if start > data_len || data_len - start < 3 {
            return Err(ParseError::Truncated);
        }
        let index = cur.read_u8()?;
        let node_count = cur.read_u16()?;
        if node_count > 0 && data_len - start < 4 + 4 * (node_count as usize - 1) + 1 {
            return Err(ParseError::Truncated);
        }
        let mut nodes: Vec<u8> = Vec::new();
        let mut k: usize = 0;
        while k < node_count as usize
            invariant
                cur.sdata() == d,
                d == old(cur).sdata(),
                start == old(cur).spos(),
                data_len == d.len(),
                start + 3 <= data_len,
                index == d[start as int],
                node_count == le_u16(d, start as int + 1),
                node_count > 0 ==> start + 4 + 4 * (node_count - 1) + 1 <= data_len,
                k <= node_count,
                nodes@.len() == k,
                forall|j: int| 0 <= j < k ==> nodes@[j] == d[start + 4 + 4 * j],
            decreases node_count as int - k,
        {
            cur.seek(start + 4 + 4 * k);
            let node = cur.read_u8()?;
            nodes.push(node);
            k = k + 1;
        }
        Ok(MapCreeper { index, node_count, nodes })
    }
}

impl MapHeader {
    pub fn parse(cur: &mut BinaryCursor) -> (r: Result<MapHeader, ParseError>)
        ensures
            final(cur).sdata() == old(cur).sdata(),
            r is Ok <==> old(cur).spos() + 0x48 <= old(cur).sdata().len(),
            r matches Ok(h) ==> h == map_header_at(old(cur).sdata(), old(cur).spos()),
            r matches Err(e) ==> e == ParseError::Truncated,
    {
        let start = cur.pos();
        let data_len = cur.len();
        if start > data_len || data_len - start < 0x48 {
            return Err(ParseError::Truncated);
        }
        let theme = cur.read_u8()?;
        let autoscroll_type = cur.read_u8()?;
        let bor_flag = cur.read_u8()?;
        let ori = cur.read_u8()?;
        let liq_e_height = cur.read_u8()?;
        let liq_mode = cur.read_u8()?;
        let liq_speed = cur.read_u8()?;
        let liq_s_height = cur.read_u8()?;
        let b_or_r = cur.read_u32()?;
        let b_or_t = cur.read_u32()?;
        let b_or_l = cur.read_u32()?;
        let b_or_b = cur.read_u32()?;
        let flag = cur.read_u32()?;
        let object_count = cur.read_u32()?;
        let sound_count = cur.read_u32()?;
        let snake_count = cur.read_u32()?;
        let clear_pipe_count = cur.read_u32()?;
        let creeper_count = cur.read_u32()?;
        let iblk_count = cur.read_u32()?;
        let track_block_count = cur.read_u32()?;
        cur.seek(start + 0x3c);
        let ground_count = cur.read_u32()?;
        let track_count = cur.read_u32()?;
        let ice_count = cur.read_u32()?;
        Ok(
            MapHeader {
                theme,
                autoscroll_type,
                bor_flag,
                ori,
                liq_e_height,
                liq_mode,
                liq_speed,
                liq_s_height,
                b_or_r,
                b_or_t,
                b_or_l,
                b_or_b,
                flag,
                object_count,
                sound_count,
                snake_count,
                clear_pipe_count,
                creeper_count,
                iblk_count,
                track_block_count,
                ground_count,
                track_count,
                ice_count,
            },
        )
    }
}

/// Whether `n` fixed-size records (needing `span` bytes each) at
/// `base + stride * i` all lie inside the buffer.
pub open spec fn records_ok(d: Seq<u8>, base: int, stride: int, span: int, n: int) -> bool {
    n <= 0 || base + stride * (n - 1) + span <= d.len()
}

/// Whether every array the map header at `s` announces lies inside the
/// buffer.
pub open spec fn map_ok(d: Seq<u8>, s: int) -> bool {
    &&& s + 0x48 <= d.len()
    &&& records_ok(d, s + 0x48, 0x20, 0x20, le_u32(d, s + 0x1c) as int)
    &&& (forall|i: int|
        0 <= i < le_u32(d, s + 0x24) ==> #[trigger] snake_block_ok(d, s + 0x149f8 + 0x3c4 * i))
    &&& (forall|i: int|
        0 <= i < le_u32(d, s + 0x28) ==> #[trigger] clear_pipe_ok(d, s + 0x15ccc + 0x124 * i))
    &&& (forall|i: int|
        0 <= i < le_u32(d, s + 0x2c) ==> #[trigger] creeper_ok(d, s + 0x240ed + 0x54 * i))
    &&& (forall|i: int|
        0 <= i < le_u32(d, s + 0x30) ==> #[trigger] move_block_ok(d, s + 0x24435 + 0x2c * i))
    &&& (forall|i: int|
        0 <= i < le_u32(d, s + 0x34) ==> #[trigger] move_block_ok(d, s + 0x245ed + 0x2c * i))
    &&& records_ok(d, s + 0x247a4, 4, 4, le_u32(d, s + 0x3c) as int)
    &&& records_ok(d, s + 0x28624, 0xc, 0xc, le_u32(d, s + 0x40) as int)
    &&& records_ok(d, s + 0x2cc74, 4, 4, le_u32(d, s + 0x44) as int)
}

/// Whether `m` holds exactly what the map region at `s` encodes.
pub open spec fn map_matches(m: LevelMap, d: Seq<u8>, s: int) -> bool {
    &&& m.map_header == map_header_at(d, s)
    &&& m.objects@.len() == le_u32(d, s + 0x1c)
    &&& (forall|i: int|
        0 <= i < m.objects@.len() ==> m.objects@[i] == object_at(d, s + 0x48 + 0x20 * i))
    &&& m.snake_blocks@.len() == le_u32(d, s + 0x24)
    &&& (forall|i: int|
        0 <= i < m.snake_blocks@.len() ==> snake_block_matches(
            m.snake_blocks@[i],
            d,
            s + 0x149f8 + 0x3c4 * i,
        ))
    &&& m.clear_pipes@.len() == le_u32(d, s + 0x28)
    &&& (forall|i: int|
        0 <= i < m.clear_pipes@.len() ==> clear_pipe_matches(
            m.clear_pipes@[i],
            d,
            s + 0x15ccc + 0x124 * i,
        ))
    &&& m.creepers@.len() == le_u32(d, s + 0x2c)
    &&& (forall|i: int|
        0 <= i < m.creepers@.len() ==> creeper_matches(m.creepers@[i], d, s + 0x240ed + 0x54 * i))
    &&& m.move_blocks@.len() == le_u32(d, s + 0x30)
    &&& (forall|i: int|
        0 <= i < m.move_blocks@.len() ==> move_block_matches(
            m.move_blocks@[i],
            d,
            s + 0x24435 + 0x2c * i,
        ))
    &&& m.track_blocks@.len() == le_u32(d, s + 0x34)
    &&& (forall|i: int|
        0 <= i < m.track_blocks@.len() ==> move_block_matches(
            m.track_blocks@[i],
            d,
            s + 0x245ed + 0x2c * i,
        ))
    &&& m.ground@.len() == le_u32(d, s + 0x3c)
    &&& (forall|i: int| 0 <= i < m.ground@.len() ==> m.ground@[i] == ground_at(d, s + 0x247a4 + 4 * i))
    &&& m.tracks@.len() == le_u32(d, s + 0x40)
    &&& (forall|i: int| 0 <= i < m.tracks@.len() ==> m.tracks@[i] == track_at(d, s + 0x28624 + 0xc * i))
    &&& m.ice@.len() == le_u32(d, s + 0x44)
    &&& (forall|i: int| 0 <= i < m.ice@.len() ==> m.ice@[i] == ground_at(d, s + 0x2cc74 + 4 * i))
}


impl LevelMap {
    /// Parses one map region at the cursor position: the map header, then
    /// each record array its count fields announce, each at its fixed base
    /// offset and stride relative to the region start.
    pub fn parse(cur: &mut BinaryCursor) -> (r: Result<LevelMap, ParseError>)
        ensures
            final(cur).sdata() == old(cur).sdata(),
            r is Ok <==> map_ok(old(cur).sdata(), old(cur).spos()),
            r matches Ok(m) ==> map_matches(m, old(cur).sdata(), old(cur).spos()),
            r matches Err(e) ==> e == ParseError::Truncated,
    {
        let ghost d = old(cur).sdata();
        let start = cur.pos();
        let data_len = cur.len();
        let map_header = MapHeader::parse(cur)?;
        let rem = data_len - start;

        let mut objects: Vec<MapObject> = Vec::new();
        if map_header.object_count > 0 && (rem as u64) < 0x48 + 0x20 * (map_header.object_count
            as u64 - 1) + 0x20 {
            return Err(ParseError::Truncated);
        }
        let mut i: u32 = 0;
        while i < map_header.object_count
            invariant
                cur.sdata() == d,
                d == old(cur).sdata(),
                start == old(cur).spos(),
                data_len == d.len(),
                start + 0x48 <= data_len,
                rem == data_len - start,
                map_header == map_header_at(d, start as int),
                map_header.object_count > 0 ==> 0x48 + 0x20 * (map_header.object_count as int - 1)
                    + 0x20 <= rem,
                i <= map_header.object_count,
                objects@.len() == i,
                forall|j: int|
                    0 <= j < i ==> objects@[j] == object_at(d, start + 0x48 + 0x20 * j),
            decreases map_header.object_count - i,
        {
            let off: u64 = 0x48 + 0x20 * (i as u64);
            cur.seek(start + (off as usize));
            let o = MapObject::parse(cur)?;
            objects.push(o);
            i = i + 1;
        }

        let mut snake_blocks: Vec<MapSnakeBlock> = Vec::new();
        let mut i: u32 = 0;
        while i < map_header.snake_count
            invariant
                cur.sdata() == d,
                d == old(cur).sdata(),
                start == old(cur).spos(),
                data_len == d.len(),
                start + 0x48 <= data_len,
                rem == data_len - start,
                map_header == map_header_at(d, start as int),
                i <= map_header.snake_count,
                snake_blocks@.len() == i,
                forall|j: int|
                    0 <= j < i ==> snake_block_matches(
                        snake_blocks@[j],
                        d,
                        start + 0x149f8 + 0x3c4 * j,
                    ),
                forall|j: int| 0 <= j < i ==> #[trigger] snake_block_ok(
                    d,
                    start + 0x149f8 + 0x3c4 * j,
                ),
            decreases map_header.snake_count - i,
        {
            let off: u64 = 0x149f8 + 0x3c4 * (i as u64);
            if (rem as u64) < off + 2 {
                proof {
                    assert(!snake_block_ok(d, start + 0x149f8 + 0x3c4 * (i as int)));
                    assert(!map_ok(d, start as int));
                }
                return Err(ParseError::Truncated);
            }
            cur.seek(start + (off as usize));
            match MapSnakeBlock::parse(cur) {
                Ok(b) => {
                    snake_blocks.push(b);
                },
                Err(e) => {
                    proof {
                        assert(!snake_block_ok(d, start + 0x149f8 + 0x3c4 * (i as int)));
                        assert(!map_ok(d, start as int));
                    }
                    return Err(e);
                },
            }
            i = i + 1;
        }

        let mut clear_pipes: Vec<MapClearPipe> = Vec::new();
        let mut i: u32 = 0;
        while i < map_header.clear_pipe_count
            invariant
                cur.sdata() == d,
                d == old(cur).sdata(),
                start == old(cur).spos(),
                data_len == d.len(),
                start + 0x48 <= data_len,
                rem == data_len - start,
                map_header == map_header_at(d, start as int),
                i <= map_header.clear_pipe_count,
                clear_pipes@.len() == i,
                forall|j: int|
                    0 <= j < i ==> clear_pipe_matches(
                        clear_pipes@[j],
                        d,
                        start + 0x15ccc + 0x124 * j,
                    ),
                forall|j: int| 0 <= j < i ==> #[trigger] clear_pipe_ok(
                    d,
                    start + 0x15ccc + 0x124 * j,
                ),
            decreases map_header.clear_pipe_count - i,
        {
            let off: u64 = 0x15ccc + 0x124 * (i as u64);
            if (rem as u64) < off + 2 {
                proof {
                    assert(!clear_pipe_ok(d, start + 0x15ccc + 0x124 * (i as int)));
                    assert(!map_ok(d, start as int));
                }
                return Err(ParseError::Truncated);
            }
            cur.seek(start + (off as usize));
            match MapClearPipe::parse(cur) {
                Ok(b) => {
                    clear_pipes.push(b);
                },
                Err(e) => {
                    proof {
                        assert(!clear_pipe_ok(d, start + 0x15ccc + 0x124 * (i as int)));
                        assert(!map_ok(d, start as int));
                    }
                    return Err(e);
                },
            }
            i = i + 1;
        }

        let mut creepers: Vec<MapCreeper> = Vec::new();
        let mut i: u32 = 0;
        while i < map_header.creeper_count
            invariant
                cur.sdata() == d,
                d == old(cur).sdata(),
                start == old(cur).spos(),
                data_len == d.len(),
                start + 0x48 <= data_len,
                rem == data_len - start,
                map_header == map_header_at(d, start as int),
                i <= map_header.creeper_count,
                creepers@.len() == i,
                forall|j: int|
                    0 <= j < i ==> creeper_matches(creepers@[j], d, start + 0x240ed + 0x54 * j),
                forall|j: int| 0 <= j < i ==> #[trigger] creeper_ok(d, start + 0x240ed + 0x54 * j),
            decreases map_header.creeper_count - i,
        {
            let off: u64 = 0x240ed + 0x54 * (i as u64);
            if (rem as u64) < off + 3 {
                proof {
                    assert(!creeper_ok(d, start + 0x240ed + 0x54 * (i as int)));
                    assert(!map_ok(d, start as int));
                }
                return Err(ParseError::Truncated);
            }
            cur.seek(start + (off as usize));
            match MapCreeper::parse(cur) {
                Ok(b) => {
                    creepers.push(b);
                },
                Err(e) => {
                    proof {
                        assert(!creeper_ok(d, start + 0x240ed + 0x54 * (i as int)));
                        assert(!map_ok(d, start as int));
                    }
                    return Err(e);
                },
            }
            i = i + 1;
        }

        let mut move_blocks: Vec<MapMoveBlock> = Vec::new();
        let mut i: u32 = 0;
        while i < map_header.iblk_count
            invariant
                cur.sdata() == d,
                d == old(cur).sdata(),
                start == old(cur).spos(),
                data_len == d.len(),
                start + 0x48 <= data_len,
                rem == data_len - start,
                map_header == map_header_at(d, start as int),
                i <= map_header.iblk_count,
                move_blocks@.len() == i,
                forall|j: int|
                    0 <= j < i ==> move_block_matches(
                        move_blocks@[j],
                        d,
                        start + 0x24435 + 0x2c * j,
                    ),
                forall|j: int| 0 <= j < i ==> #[trigger] move_block_ok(
                    d,
                    start + 0x24435 + 0x2c * j,
                ),
            decreases map_header.iblk_count - i,
        {
            let off: u64 = 0x24435 + 0x2c * (i as u64);
            if (rem as u64) < off + 3 {
                proof {
                    assert(!move_block_ok(d, start + 0x24435 + 0x2c * (i as int)));
                    assert(!map_ok(d, start as int));
                }
                return Err(ParseError::Truncated);
            }
            cur.seek(start + (off as usize));
            match MapMoveBlock::parse(cur) {
                Ok(b) => {
                    move_blocks.push(b);
                },
                Err(e) => {
                    proof {
                        assert(!move_block_ok(d, start + 0x24435 + 0x2c * (i as int)));
                        assert(!map_ok(d, start as int));
                    }
                    return Err(e);
                },
            }
            i = i + 1;
        }

        let mut track_blocks: Vec<MapMoveBlock> = Vec::new();
        let mut i: u32 = 0;
        while i < map_header.track_block_count
            invariant
                cur.sdata() == d,
                d == old(cur).sdata(),
                start == old(cur).spos(),
                data_len == d.len(),
                start + 0x48 <= data_len,
                rem == data_len - start,
                map_header == map_header_at(d, start as int),
                i <= map_header.track_block_count,
                track_blocks@.len() == i,
                forall|j: int|
                    0 <= j < i ==> move_block_matches(
                        track_blocks@[j],
                        d,
                        start + 0x245ed + 0x2c * j,
                    ),
                forall|j: int| 0 <= j < i ==> #[trigger] move_block_ok(
                    d,
                    start + 0x245ed + 0x2c * j,
                ),
            decreases map_header.track_block_count - i,
        {
            let off: u64 = 0x245ed + 0x2c * (i as u64);
            if (rem as u64) < off + 3 {
                proof {
                    assert(!move_block_ok(d, start + 0x245ed + 0x2c * (i as int)));
                    assert(!map_ok(d, start as int));
                }
                return Err(ParseError::Truncated);
            }
            cur.seek(start + (off as usize));
            match MapMoveBlock::parse(cur) {
                Ok(b) => {
                    track_blocks.push(b);
                },
                Err(e) => {
                    proof {
                        assert(!move_block_ok(d, start + 0x245ed + 0x2c * (i as int)));
                        assert(!map_ok(d, start as int));
                    }
                    return Err(e);
                },
            }
            i = i + 1;
        }

        let mut ground: Vec<MapGround> = Vec::new();
        if map_header.ground_count > 0 && (rem as u64) < 0x247a4 + 4 * (map_header.ground_count
            as u64 - 1) + 4 {
            return Err(ParseError::Truncated);
        }
        let mut i: u32 = 0;
        while i < map_header.ground_count
            invariant
                cur.sdata() == d,
                d == old(cur).sdata(),
                start == old(cur).spos(),
                data_len == d.len(),
                start + 0x48 <= data_len,
                rem == data_len - start,
                map_header == map_header_at(d, start as int),
                map_header.ground_count > 0 ==> 0x247a4 + 4 * (map_header.ground_count as int - 1)
                    + 4 <= rem,
                i <= map_header.ground_count,
                ground@.len() == i,
                forall|j: int| 0 <= j < i ==> ground@[j] == ground_at(d, start + 0x247a4 + 4 * j),
            decreases map_header.ground_count - i,
        {
            let off: u64 = 0x247a4 + 4 * (i as u64);
            cur.seek(start + (off as usize));
            let g = MapGround::parse(cur)?;
            ground.push(g);
            i = i + 1;
        }

        let mut tracks: Vec<MapTrack> = Vec::new();
        if map_header.track_count > 0 && (rem as u64) < 0x28624 + 0xc * (map_header.track_count
            as u64 - 1) + 0xc {
            return Err(ParseError::Truncated);
        }
        let mut i: u32 = 0;
        while i < map_header.track_count
            invariant
                cur.sdata() == d,
                d == old(cur).sdata(),
                start == old(cur).spos(),
                data_len == d.len(),
                start + 0x48 <= data_len,
                rem == data_len - start,
                map_header == map_header_at(d, start as int),
                map_header.track_count > 0 ==> 0x28624 + 0xc * (map_header.track_count as int - 1)
                    + 0xc <= rem,
                i <= map_header.track_count,
                tracks@.len() == i,
                forall|j: int| 0 <= j < i ==> tracks@[j] == track_at(d, start + 0x28624 + 0xc * j),
            decreases map_header.track_count - i,
        {
            let off: u64 = 0x28624 + 0xc * (i as u64);
            cur.seek(start + (off as usize));
            let t = MapTrack::parse(cur)?;
            tracks.push(t);
            i = i + 1;
        }

        let mut ice: Vec<MapGround> = Vec::new();
        if map_header.ice_count > 0 && (rem as u64) < 0x2cc74 + 4 * (map_header.ice_count as u64
            - 1) + 4 {
            return Err(ParseError::Truncated);
        }
        let mut i: u32 = 0;
        while i < map_header.ice_count
            invariant
                cur.sdata() == d,
                d == old(cur).sdata(),
                start == old(cur).spos(),
                data_len == d.len(),
                start + 0x48 <= data_len,
                rem == data_len - start,
                map_header == map_header_at(d, start as int),
                map_header.ice_count > 0 ==> 0x2cc74 + 4 * (map_header.ice_count as int - 1) + 4
                    <= rem,
                i <= map_header.ice_count,
                ice@.len() == i,
                forall|j: int| 0 <= j < i ==> ice@[j] == ground_at(d, start + 0x2cc74 + 4 * j),
            decreases map_header.ice_count - i,
        {
            let off: u64 = 0x2cc74 + 4 * (i as u64);
            cur.seek(start + (off as usize));
            let g = MapGround::parse(cur)?;
            ice.push(g);
            i = i + 1;
        }

        Ok(
            LevelMap {
                map_header,
                clear_pipes,
                snake_blocks,
                move_blocks,
                track_blocks,
                creepers,
                objects,
                ground,
                ice,
                tracks,
            },
        )
    }
}

/// Whether the level header region at `s` lies inside the buffer, with both
/// of its strings null-terminated.
pub open spec fn header_ok(d: Seq<u8>, s: int) -> bool {
    &&& s + 0xf3 <= d.len()
    &&& wcstr_terminated(d, s + 0xf4)
    &&& wcstr_terminated(d, s + 0x136)
}

/// Whether `h` holds exactly what the header region at `s` encodes.
pub open spec fn header_matches(h: LevelHeader, d: Seq<u8>, s: int) -> bool {
    &&& h.start_y == d[s]
    &&& h.goal_y == d[s + 1]
    &&& h.goal_x == as_i16(le_u16(d, s + 2))
    &&& h.timer == le_u16(d, s + 4)
    &&& h.clear_ca == le_u16(d, s + 6)
    &&& h.date_year == le_u16(d, s + 8)
    &&& h.date_mon == d[s + 10]
    &&& h.date_day == d[s + 11]
    &&& h.date_hour == d[s + 12]
    &&& h.date_minute == d[s + 13]
    &&& h.autoscroll_speed == d[s + 14]
    &&& h.clear_cc == d[s + 15]
    &&& h.clear_crc == le_u32(d, s + 16)
    &&& h.game_version == le_u32(d, s + 20)
    &&& h.m_flag == le_u32(d, s + 24)
    &&& h.clear_attempts == le_u32(d, s + 28)
    &&& h.clear_time == le_u32(d, s + 32)
    &&& h.creation_id == le_u32(d, s + 36)
    &&& h.upload_id == le_u64(d, s + 40)
    &&& h.clear_version == le_u32(d, s + 48)
    &&& h.game_style == le_u16(d, s + 0xf1)
    &&& h.name@ == utf16_lossy_of(wcstr_units(d, s + 0xf4))
    &&& h.description@ == utf16_lossy_of(wcstr_units(d, s + 0x136))
}

impl LevelHeader {
    /// Parses the level header at the cursor position: a run of scalar
    /// fields, the game-style code at a fixed offset, then the name and
    /// description strings.
    pub fn parse(cur: &mut BinaryCursor) -> (r: Result<LevelHeader, ParseError>)
        ensures
            final(cur).sdata() == old(cur).sdata(),
            r is Ok <==> header_ok(old(cur).sdata(), old(cur).spos()),
            r matches Ok(h) ==> header_matches(h, old(cur).sdata(), old(cur).spos()),
            r matches Err(e) ==> e == ParseError::Truncated,
    {
        let ghost d = old(cur).sdata();
        let start = cur.pos();
        let data_len = cur.len();
        if start > data_len || data_len - start < 0xf3 {
            return Err(ParseError::Truncated);
        }
        let start_y = cur.read_u8()?;
        let goal_y = cur.read_u8()?;
        let goal_x = cur.read_i16()?;
        let timer = cur.read_u16()?;
        let clear_ca = cur.read_u16()?;
        let date_year = cur.read_u16()?;
        let date_mon = cur.read_u8()?;
        let date_day = cur.read_u8()?;
        let date_hour = cur.read_u8()?;
        let date_minute = cur.read_u8()?;
        let autoscroll_speed = cur.read_u8()?;
        let clear_cc = cur.read_u8()?;
        let clear_crc = cur.read_u32()?;
        let game_version = cur.read_u32()?;
        let m_flag = cur.read_u32()?;
        let clear_attempts = cur.read_u32()?;
        let clear_time = cur.read_u32()?;
        let creation_id = cur.read_u32()?;
        let upload_id = cur.read_u64()?;
        let clear_version = cur.read_u32()?;
        cur.seek(start + 0xf1);
        let game_style = cur.read_u16()?;
        if data_len - start < 0xf6 {
            proof {
                assert(!wcstr_terminated(d, start + 0xf4));
            }
            return Err(ParseError::Truncated);
        }
        cur.seek(start + 0xf4);
        let name = cur.read_wcstring()?;
        if data_len - start < 0x138 {
            proof {
                assert(!wcstr_terminated(d, start + 0x136));
            }
            return Err(ParseError::Truncated);
        }
        cur.seek(start + 0x136);
        let description = cur.read_wcstring()?;
        Ok(
            LevelHeader {
                start_y,
                goal_y,
                goal_x,
                timer,
                clear_ca,
                date_year,
                date_mon,
                date_day,
                date_hour,
                date_minute,
                autoscroll_speed,
                clear_cc,
                clear_crc,
                game_version,
                m_flag,
                clear_attempts,
                clear_time,
                creation_id,
                upload_id,
                clear_version,
                game_style,
                name,
                description,
            },
        )
    }
}

/// Whether a whole level file lies inside the buffer: the header at the
/// start, the overworld map region at 0x200 and the subworld map region at
/// 0x2e0e0.
pub open spec fn level_ok(d: Seq<u8>) -> bool {
    &&& header_ok(d, 0)
    &&& map_ok(d, 0x200)
    &&& map_ok(d, 0x2e0e0)
}

/// Whether `lv` holds exactly what the buffer encodes.
pub open spec fn level_matches(lv: Level, d: Seq<u8>) -> bool {
    &&& header_matches(lv.header, d, 0)
    &&& map_matches(lv.overworld, d, 0x200)
    &&& map_matches(lv.subworld, d, 0x2e0e0)
}

impl Level {
    /// Parses a whole decrypted level file: the header, then the overworld
    /// and subworld map regions at their fixed offsets.
    pub fn parse(data: &[u8]) -> (r: Result<Level, ParseError>)
        ensures
            r is Ok <==> level_ok(data@),
            r matches Ok(lv) ==> level_matches(lv, data@),
            r matches Err(e) ==> e == ParseError::Truncated,
    {
        let mut cur = BinaryCursor::new(data);
        let header = LevelHeader::parse(&mut cur)?;
        cur.seek(0x200);
        let overworld = LevelMap::parse(&mut cur)?;
        cur.seek(0x2e0e0);
        let subworld = LevelMap::parse(&mut cur)?;
        Ok(Level { header, overworld, subworld })
    }
}

} // verus!
