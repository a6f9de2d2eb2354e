use smm2_stats::level_parser::resolve::{
    num_to_autoscroll_speed, num_to_autoscroll_type, num_to_boundary_type, num_to_clear_condition,
    num_to_clear_condition_category, num_to_game_style, num_to_game_version, num_to_liquid_mode,
    num_to_liquid_speed, num_to_name, num_to_orientation, num_to_theme, FLAG_ALT_ITEM,
    FLAG_IS_KEY_DOOR, FLAG_IS_P_DOOR, GAME_STYLE_SMB1, GAME_STYLE_SMW,
};
use smm2_stats::mm2_api::Difficulty;

#[test]
fn game_style_codes() {
    assert_eq!(num_to_game_style(12621), Some("SMB1"));
    assert_eq!(num_to_game_style(13133), Some("SMB3"));
    assert_eq!(num_to_game_style(22349), Some("SMW"));
    assert_eq!(num_to_game_style(21847), Some("NSMBU"));
    assert_eq!(num_to_game_style(22323), Some("SM3DW"));
    assert_eq!(num_to_game_style(0), None);
}

#[test]
fn object_name_precedence() {
    assert_eq!(num_to_name(0, 0, GAME_STYLE_SMW), Some("Galoomba"));
    assert_eq!(num_to_name(0, 0, GAME_STYLE_SMB1), Some("Goomba"));
    assert_eq!(num_to_name(0, FLAG_ALT_ITEM, GAME_STYLE_SMB1), Some("Goombrat"));
    assert_eq!(num_to_name(0, FLAG_ALT_ITEM, GAME_STYLE_SMW), Some("Goombud"));
    assert_eq!(num_to_name(0, 0, 1), None); // unknown style
    assert_eq!(num_to_name(55, FLAG_IS_KEY_DOOR, GAME_STYLE_SMB1), Some("Key Door"));
    assert_eq!(num_to_name(55, FLAG_IS_KEY_DOOR, GAME_STYLE_SMW), Some("Key Door"));
    assert_eq!(num_to_name(55, FLAG_IS_P_DOOR, GAME_STYLE_SMB1), Some("P Warp Door"));
    // the p-door bit wins over the key-door bit
    assert_eq!(
        num_to_name(55, FLAG_IS_P_DOOR | FLAG_IS_KEY_DOOR, GAME_STYLE_SMB1),
        Some("P Warp Door")
    );
    assert_eq!(num_to_name(55, 0, GAME_STYLE_SMB1), Some("Warp Door"));
    assert_eq!(num_to_name(999, 0, GAME_STYLE_SMB1), None);
    assert_eq!(num_to_name(-1, 0, GAME_STYLE_SMB1), None);
    assert_eq!(num_to_name(20, 0, GAME_STYLE_SMB1), Some("Super Mushroom"));
    assert_eq!(num_to_name(20, FLAG_ALT_ITEM, GAME_STYLE_SMB1), Some("Master Sword"));
    assert_eq!(num_to_name(44, 0, GAME_STYLE_SMB1), Some("Big Mushroom"));
    assert_eq!(num_to_name(44, 0, GAME_STYLE_SMW), Some("Cape Feather"));
    assert_eq!(num_to_name(45, 0, GAME_STYLE_SMW), Some("Yoshi"));
    assert_eq!(num_to_name(45, 0, 22323), None); // no shoe or yoshi in SM3DW
    assert_eq!(num_to_name(73, 0, GAME_STYLE_SMB1), None); // unnamed id
    assert_eq!(num_to_name(81, 0, 21847), Some("Super Acorn"));
    assert_eq!(num_to_name(132, 0, GAME_STYLE_SMB1), Some("ON/OFF Trampoline"));
}

#[test]
fn clear_condition_texts() {
    assert_eq!(num_to_clear_condition(0, 0), Some("None".to_string()));
    assert_eq!(
        num_to_clear_condition(199585683, 3),
        Some("Reach the goal after defeating at least/all 3 Mechakoopa(s).".to_string())
    );
    assert_eq!(
        num_to_clear_condition(137525990, 7),
        Some("Reach the goal without landing after leaving the ground.".to_string())
    );
    assert_eq!(
        num_to_clear_condition(4116396131, 100),
        Some("Reach the goal after grabbing at least/all 100 Coin(s).".to_string())
    );
    assert_eq!(
        num_to_clear_condition(4293354249, 65535),
        Some("Reach the goal after defeating at least/all 65535 Banzai Bill(s).".to_string())
    );
    assert_eq!(num_to_clear_condition(12345, 1), None);
}

#[test]
fn clear_condition_category_codes() {
    assert_eq!(num_to_clear_condition_category(0), Some("None"));
    assert_eq!(num_to_clear_condition_category(3), Some("Actions"));
    assert_eq!(num_to_clear_condition_category(4), None);
}

#[test]
fn game_version_codes() {
    assert_eq!(num_to_game_version(0), Some("1.0.0"));
    assert_eq!(num_to_game_version(5), Some("3.0.1"));
    assert_eq!(num_to_game_version(33), Some("What"));
    assert_eq!(num_to_game_version(6), None);
}

#[test]
fn theme_codes() {
    assert_eq!(num_to_theme(0), Some("Overworld"));
    assert_eq!(num_to_theme(5), Some("Ghost house"));
    assert_eq!(num_to_theme(9), Some("Forest"));
    assert_eq!(num_to_theme(10), None);
}

#[test]
fn scroll_boundary_orientation_liquid_codes() {
    assert_eq!(num_to_autoscroll_speed(2), Some("x3"));
    assert_eq!(num_to_autoscroll_speed(3), None);
    assert_eq!(num_to_autoscroll_type(4), Some("Custom"));
    assert_eq!(num_to_autoscroll_type(5), None);
    assert_eq!(num_to_boundary_type(0), Some("Built Above Line"));
    assert_eq!(num_to_boundary_type(2), None);
    assert_eq!(num_to_orientation(1), Some("Vertical"));
    assert_eq!(num_to_orientation(2), None);
    assert_eq!(num_to_liquid_mode(1), Some("Rising or Falling"));
    assert_eq!(num_to_liquid_mode(3), None);
    assert_eq!(num_to_liquid_speed(0), Some("None"));
    assert_eq!(num_to_liquid_speed(4), None);
}

#[test]
fn difficulty_api_codes() {
    assert_eq!(Difficulty::Easy.api_str(), "e");
    assert_eq!(Difficulty::Normal.api_str(), "n");
    assert_eq!(Difficulty::Expert.api_str(), "ex");
    assert_eq!(Difficulty::SuperExpert.api_str(), "sex");
}
