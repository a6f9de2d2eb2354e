use smm2_stats::item_groups::get_group;
use smm2_stats::pair_stats::parse_pair_line;
use smm2_stats::text::{parse_u64, u16_to_string};

#[test]
fn fixed_powerup_groups() {
    assert_eq!(
        get_group("Style Powerup 1"),
        vec!["Big Mushroom", "Super Leaf", "Cape Feather", "Propeller Mushroom", "Super Bell"]
    );
    let second = vec!["SMB2 Mushroom", "Frog Suit", "Power Balloon", "Super Acorn",
        "Boomerang Flower"];
    assert_eq!(get_group("Style Powerup 2"), second);
    assert_eq!(get_group("Update 2 Powerup"), second);
}

#[test]
fn ad_hoc_groups_split_on_commas_and_slashes() {
    assert_eq!(get_group("a,b/c"), vec!["a", "b", "c"]);
    assert_eq!(get_group("Koopa"), vec!["Koopa"]);
    assert_eq!(get_group(""), vec![""]);
    assert_eq!(get_group("a,,b"), vec!["a", "", "b"]);
    assert_eq!(get_group("x/"), vec!["x", ""]);
}

#[test]
fn pair_lines_parse() {
    assert_eq!(
        parse_pair_line("Koopa,Goomba,42"),
        Some((("Koopa".to_string(), "Goomba".to_string()), 42))
    );
    // extra fields are ignored
    assert_eq!(
        parse_pair_line("a,b,3,junk"),
        Some((("a".to_string(), "b".to_string()), 3))
    );
    assert_eq!(parse_pair_line("a,b"), None);
    assert_eq!(parse_pair_line("a,b,x"), None);
    assert_eq!(parse_pair_line(""), None);
    assert_eq!(
        parse_pair_line(",,0"),
        Some((("".to_string(), "".to_string()), 0))
    );
}

#[test]
fn u64_parsing_matches_std() {
    for s in ["0", "42", "+7", "18446744073709551615", "18446744073709551616", "", "+",
        "1x", "-3", " 4"] {
        assert_eq!(parse_u64(s), s.parse::<u64>().ok(), "input {:?}", s);
    }
}

#[test]
fn u16_decimal_rendering() {
    assert_eq!(u16_to_string(0), "0");
    assert_eq!(u16_to_string(7), "7");
    assert_eq!(u16_to_string(10), "10");
    assert_eq!(u16_to_string(65535), "65535");
}
