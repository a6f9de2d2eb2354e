//! Resolution of raw numeric codes into display names: pure, total
//! functions that return no name for a code they do not know, since files
//! from a newer format revision may carry codes this table predates.

use vstd::prelude::*;

use crate::level_parser::{LevelHeader, MapHeader, MapObject};
use crate::text::{dec_str, u16_to_string};

verus! {

pub const GAME_STYLE_SMB1: u16 = 12621;

pub const GAME_STYLE_SMB3: u16 = 13133;

pub const GAME_STYLE_SMW: u16 = 22349;

pub const GAME_STYLE_NSMBU: u16 = 21847;

pub const GAME_STYLE_SM3DW: u16 = 22323;

pub const FLAG_IS_P_DOOR: u32 = 0x0004_0000;

pub const FLAG_IS_KEY_DOOR: u32 = 0x0008_0000;

pub const FLAG_ALT_ITEM: u32 = 0x0000_0004;

/// Whether a resolved name agrees with the name the table gives: both absent,
/// or both present and equal.
pub open spec fn names_match(r: Option<&str>, m: Option<Seq<char>>) -> bool {
    match (r, m) {
        (Some(s), Some(t)) => s@ == t,
        (None, None) => true,
        _ => false,
    }
}

/// `names_match` for an owned string.
pub open spec fn cond_match(r: Option<String>, m: Option<Seq<char>>) -> bool {
    match (r, m) {
        (Some(s), Some(t)) => s@ == t,
        (None, None) => true,
        _ => false,
    }
}

/// Builds "prefix, then the counter in decimal, then suffix".
fn fmt_count(prefix: &str, y: u16, suffix: &str) -> (r: String)
    ensures
        r@ == prefix@ + dec_str(y as nat) + suffix@,
{
    let mut s = String::from_str(prefix);
    let mid = u16_to_string(y);
    s.append(mid.as_str());
    s.append(suffix);
    s
}

/// The display name of a game-style code (five are known).
pub open spec fn game_style_name(x: u16) -> Option<Seq<char>> {
    if x == GAME_STYLE_SMB1 {
        Some("SMB1"@)
    } else if x == GAME_STYLE_SMB3 {
        Some("SMB3"@)
    } else if x == GAME_STYLE_SMW {
        Some("SMW"@)
    } else if x == GAME_STYLE_NSMBU {
        Some("NSMBU"@)
    } else if x == GAME_STYLE_SM3DW {
        Some("SM3DW"@)
    } else {
        None
    }
}

pub fn num_to_game_style(x: u16) -> (r: Option<&'static str>)
    ensures
        names_match(r, game_style_name(x)),
{
    if x == GAME_STYLE_SMB1 {
        Some("SMB1")
    } else if x == GAME_STYLE_SMB3 {
        Some("SMB3")
    } else if x == GAME_STYLE_SMW {
        Some("SMW")
    } else if x == GAME_STYLE_NSMBU {
        Some("NSMBU")
    } else if x == GAME_STYLE_SM3DW {
        Some("SM3DW")
    } else {
        None
    }
}

/// The display name of a clear-condition category code.
pub open spec fn clear_condition_category_name(x: u8) -> Option<Seq<char>> {
    if x == 0 {
        Some("None"@)
    } else if x == 1 {
        Some("Parts"@)
    } else if x == 2 {
        Some("Status"@)
    } else if x == 3 {
        Some("Actions"@)
    } else {
        None
    }
}

pub fn num_to_clear_condition_category(x: u8) -> (r: Option<&'static str>)
    ensures
        names_match(r, clear_condition_category_name(x)),
{
    if x == 0 {
        Some("None")
    } else if x == 1 {
        Some("Parts")
    } else if x == 2 {
        Some("Status")
    } else if x == 3 {
        Some("Actions")
    } else {
        None
    }
}

/// The display name of a game-version code.
pub open spec fn game_version_name(x: u32) -> Option<Seq<char>> {
    if x == 0 {
        Some("1.0.0"@)
    } else if x == 1 {
        Some("1.0.1"@)
    } else if x == 2 {
        Some("1.1.0"@)
    } else if x == 3 {
        Some("2.0.0"@)
    } else if x == 4 {
        Some("3.0.0"@)
    } else if x == 5 {
        Some("3.0.1"@)
    } else if x == 33 {
        Some("What"@)
    } else {
        None
    }
}

pub fn num_to_game_version(x: u32) -> (r: Option<&'static str>)
    ensures
        names_match(r, game_version_name(x)),
{
    if x == 0 {
        Some("1.0.0")
    } else if x == 1 {
        Some("1.0.1")
    } else if x == 2 {
        Some("1.1.0")
    } else if x == 3 {
        Some("2.0.0")
    } else if x == 4 {
        Some("3.0.0")
    } else if x == 5 {
        Some("3.0.1")
    } else if x == 33 {
        Some("What")
    } else {
        None
    }
}

/// The display name of a theme code.
pub open spec fn theme_name(x: u8) -> Option<Seq<char>> {
    if x == 0 {
        Some("Overworld"@)
    } else if x == 1 {
        Some("Underground"@)
    } else if x == 2 {
        Some("Castle"@)
    } else if x == 3 {
        Some("Airship"@)
    } else if x == 4 {
        Some("Underwater"@)
    } else if x == 5 {
        Some("Ghost house"@)
    } else if x == 6 {
        Some("Snow"@)
    } else if x == 7 {
        Some("Desert"@)
    } else if x == 8 {
        Some("Sky"@)
    } else if x == 9 {
        Some("Forest"@)
    } else {
        None
    }
}

pub fn num_to_theme(x: u8) -> (r: Option<&'static str>)
    ensures
        names_match(r, theme_name(x)),
{
    if x == 0 {
        Some("Overworld")
    } else if x == 1 {
        Some("Underground")
    } else if x == 2 {
        Some("Castle")
    } else if x == 3 {
        Some("Airship")
    } else if x == 4 {
        Some("Underwater")
    } else if x == 5 {
        Some("Ghost house")
    } else if x == 6 {
        Some("Snow")
    } else if x == 7 {
        Some("Desert")
    } else if x == 8 {
        Some("Sky")
    } else if x == 9 {
        Some("Forest")
    } else {
        None
    }
}

/// The display name of an autoscroll-speed code.
pub open spec fn autoscroll_speed_name(x: u8) -> Option<Seq<char>> {
    if x == 0 {
        Some("x1"@)
    } else if x == 1 {
        Some("x2"@)
    } else if x == 2 {
        Some("x3"@)
    } else {
        None
    }
}

pub fn num_to_autoscroll_speed(x: u8) -> (r: Option<&'static str>)
    ensures
        names_match(r, autoscroll_speed_name(x)),
{
    if x == 0 {
        Some("x1")
    } else if x == 1 {
        Some("x2")
    } else if x == 2 {
        Some("x3")
    } else {
        None
    }
}

/// The display name of an autoscroll-type code.
pub open spec fn autoscroll_type_name(x: u8) -> Option<Seq<char>> {
    if x == 0 {
        Some("None"@)
    } else if x == 1 {
        Some("Slow"@)
    } else if x == 2 {
        Some("Normal"@)
    } else if x == 3 {
        Some("Fast"@)
    } else if x == 4 {
        Some("Custom"@)
    } else {
        None
    }
}

pub fn num_to_autoscroll_type(x: u8) -> (r: Option<&'static str>)
    ensures
        names_match(r, autoscroll_type_name(x)),
{
    if x == 0 {
        Some("None")
    } else if x == 1 {
        Some("Slow")
    } else if x == 2 {
        Some("Normal")
    } else if x == 3 {
        Some("Fast")
    } else if x == 4 {
        Some("Custom")
    } else {
        None
    }
}

/// The display name of a boundary-type code.
pub open spec fn boundary_type_name(x: u8) -> Option<Seq<char>> {
    if x == 0 {
        Some("Built Above Line"@)
    } else if x == 1 {
        Some("Built Below Line"@)
    } else {
        None
    }
}

pub fn num_to_boundary_type(x: u8) -> (r: Option<&'static str>)
    ensures
        names_match(r, boundary_type_name(x)),
{
    if x == 0 {
        Some("Built Above Line")
    } else if x == 1 {
        Some("Built Below Line")
    } else {
        None
    }
}

/// The display name of an orientation code.
pub open spec fn orientation_name(x: u8) -> Option<Seq<char>> {
    if x == 0 {
        Some("Horizontal"@)
    } else if x == 1 {
        Some("Vertical"@)
    } else {
        None
    }
}

pub fn num_to_orientation(x: u8) -> (r: Option<&'static str>)
    ensures
        names_match(r, orientation_name(x)),
{
    if x == 0 {
        Some("Horizontal")
    } else if x == 1 {
        Some("Vertical")
    } else {
        None
    }
}

/// The display name of a liquid-mode code.
pub open spec fn liquid_mode_name(x: u8) -> Option<Seq<char>> {
    if x == 0 {
        Some("Static"@)
    } else if x == 1 {
        Some("Rising or Falling"@)
    } else if x == 2 {
        Some("Rising and Falling"@)
    } else {
        None
    }
}

pub fn num_to_liquid_mode(x: u8) -> (r: Option<&'static str>)
    ensures
        names_match(r, liquid_mode_name(x)),
{
    if x == 0 {
        Some("Static")
    } else if x == 1 {
        Some("Rising or Falling")
    } else if x == 2 {
        Some("Rising and Falling")
    } else {
        None
    }
}

/// The display name of a liquid-speed code.
pub open spec fn liquid_speed_name(x: u8) -> Option<Seq<char>> {
    if x == 0 {
        Some("None"@)
    } else if x == 1 {
        Some("x1"@)
    } else if x == 2 {
        Some("x2"@)
    } else if x == 3 {
        Some("x3"@)
    } else {
        None
    }
}

pub fn num_to_liquid_speed(x: u8) -> (r: Option<&'static str>)
    ensures
        names_match(r, liquid_speed_name(x)),
{
    if x == 0 {
        Some("None")
    } else if x == 1 {
        Some("x1")
    } else if x == 2 {
        Some("x2")
    } else if x == 3 {
        Some("x3")
    } else {
        None
    }
}

/// The display text of a clear-condition code; parameterized conditions
/// substitute the companion count `y` in decimal.
pub open spec fn clear_condition_text(x: u32, y: u16) -> Option<Seq<char>> {
    if x == 0 {
        Some("None"@)
    } else if x == 137525990 {
        Some("Reach the goal without landing after leaving the ground."@)
    } else if x == 199585683 {
        Some("Reach the goal after defeating at least/all "@ + dec_str(y as nat) + " Mechakoopa(s)."@)
    } else if x == 272349836 {
        Some("Reach the goal after defeating at least/all "@ + dec_str(y as nat) + " Cheep Cheep(s)."@)
    } else if x == 375673178 {
        Some("Reach the goal without taking damage."@)
    } else if x == 426197923 {
        Some("Reach the goal as Boomerang Mario."@)
    } else if x == 436833616 {
        Some("Reach the goal while wearing a Shoe."@)
    } else if x == 713979835 {
        Some("Reach the goal as Fire Mario."@)
    } else if x == 744927294 {
        Some("Reach the goal as Frog Mario."@)
    } else if x == 751004331 {
        Some("Reach the goal after defeating at least/all "@ + dec_str(y as nat) + " Larry(s)."@)
    } else if x == 900050759 {
        Some("Reach the goal as Raccoon Mario."@)
    } else if x == 947659466 {
        Some("Reach the goal after defeating at least/all "@ + dec_str(y as nat) + " Blooper(s)."@)
    } else if x == 976173462 {
        Some("Reach the goal as Propeller Mario."@)
    } else if x == 994686866 {
        Some("Reach the goal while wearing a Propeller Box."@)
    } else if x == 998904081 {
        Some("Reach the goal after defeating at least/all "@ + dec_str(y as nat) + " Spike(s)."@)
    } else if x == 1008094897 {
        Some("Reach the goal after defeating at least/all "@ + dec_str(y as nat) + " Boom Boom(s)."@)
    } else if x == 1051433633 {
        Some("Reach the goal while holding a Koopa Shell."@)
    } else if x == 1061233896 {
        Some("Reach the goal after defeating at least/all "@ + dec_str(y as nat) + " Porcupuffer(s)."@)
    } else if x == 1062253843 {
        Some("Reach the goal after defeating at least/all "@ + dec_str(y as nat) + " Charvaargh(s)."@)
    } else if x == 1079889509 {
        Some("Reach the goal after defeating at least/all "@ + dec_str(y as nat) + " Bullet Bill(s)."@)
    } else if x == 1080535886 {
        Some("Reach the goal after defeating at least/all "@ + dec_str(y as nat) + " Bully/Bullies."@)
    } else if x == 1151250770 {
        Some("Reach the goal while wearing a Goomba Mask."@)
    } else if x == 1182464856 {
        Some("Reach the goal after defeating at least/all "@ + dec_str(y as nat) + " Hop-Chops."@)
    } else if x == 1219761531 {
        Some("Reach the goal while holding a Red POW Block. OR Reach the goal after activating at least/all "@ + dec_str(y as nat) + " Red POW Block(s)."@)
    } else if x == 1221661152 {
        Some("Reach the goal after defeating at least/all "@ + dec_str(y as nat) + " Bob-omb(s)."@)
    } else if x == 1259427138 {
        Some("Reach the goal after defeating at least/all "@ + dec_str(y as nat) + " Spiny/Spinies."@)
    } else if x == 1268255615 {
        Some("Reach the goal after defeating at least/all "@ + dec_str(y as nat) + " Bowser(s)/Meowser(s)."@)
    } else if x == 1279580818 {
        Some("Reach the goal after defeating at least/all "@ + dec_str(y as nat) + " Ant Trooper(s)."@)
    } else if x == 1283945123 {
        Some("Reach the goal on a Lakitu's Cloud."@)
    } else if x == 1344044032 {
        Some("Reach the goal after defeating at least/all "@ + dec_str(y as nat) + " Boo(s)."@)
    } else if x == 1425973877 {
        Some("Reach the goal after defeating at least/all "@ + dec_str(y as nat) + " Roy(s)."@)
    } else if x == 1429902736 {
        Some("Reach the goal while holding a Trampoline."@)
    } else if x == 1431944825 {
        Some("Reach the goal after defeating at least/all "@ + dec_str(y as nat) + " Morton(s)."@)
    } else if x == 1446467058 {
        Some("Reach the goal after defeating at least/all "@ + dec_str(y as nat) + " Fish Bone(s)."@)
    } else if x == 1510495760 {
        Some("Reach the goal after defeating at least/all "@ + dec_str(y as nat) + " Monty Mole(s)."@)
    } else if x == 1656179347 {
        Some("Reach the goal after picking up at least/all "@ + dec_str(y as nat) + " 1-Up Mushroom(s)."@)
    } else if x == 1665820273 {
        Some("Reach the goal after defeating at least/all "@ + dec_str(y as nat) + " Hammer Bro(s.)."@)
    } else if x == 1676924210 {
        Some("Reach the goal after hitting at least/all "@ + dec_str(y as nat) + " P Switch(es). OR Reach the goal while holding a P Switch."@)
    } else if x == 1715960804 {
        Some("Reach the goal after activating at least/all "@ + dec_str(y as nat) + " POW Block(s). OR Reach the goal while holding a POW Block."@)
    } else if x == 1724036958 {
        Some("Reach the goal after defeating at least/all "@ + dec_str(y as nat) + " Angry Sun(s)."@)
    } else if x == 1730095541 {
        Some("Reach the goal after defeating at least/all "@ + dec_str(y as nat) + " Pokey(s)."@)
    } else if x == 1780278293 {
        Some("Reach the goal as Superball Mario."@)
    } else if x == 1839897151 {
        Some("Reach the goal after defeating at least/all "@ + dec_str(y as nat) + " Pom Pom(s)."@)
    } else if x == 1969299694 {
        Some("Reach the goal after defeating at least/all "@ + dec_str(y as nat) + " Peepa(s)."@)
    } else if x == 2035052211 {
        Some("Reach the goal after defeating at least/all "@ + dec_str(y as nat) + " Lakitu(s)."@)
    } else if x == 2038503215 {
        Some("Reach the goal after defeating at least/all "@ + dec_str(y as nat) + " Lemmy(s)."@)
    } else if x == 2048033177 {
        Some("Reach the goal after defeating at least/all "@ + dec_str(y as nat) + " Lava Bubble(s)."@)
    } else if x == 2076496776 {
        Some("Reach the goal while wearing a Bullet Bill Mask."@)
    } else if x == 2089161429 {
        Some("Reach the goal as Big Mario."@)
    } else if x == 2111528319 {
        Some("Reach the goal as Cat Mario."@)
    } else if x == 2131209407 {
        Some("Reach the goal after defeating at least/all "@ + dec_str(y as nat) + " Goomba(s)/Galoomba(s)."@)
    } else if x == 2139645066 {
        Some("Reach the goal after defeating at least/all "@ + dec_str(y as nat) + " Thwomp(s)."@)
    } else if x == 2259346429 {
        Some("Reach the goal after defeating at least/all "@ + dec_str(y as nat) + " Iggy(s)."@)
    } else if x == 2549654281 {
        Some("Reach the goal while wearing a Dry Bones Shell."@)
    } else if x == 2694559007 {
        Some("Reach the goal after defeating at least/all "@ + dec_str(y as nat) + " Sledge Bro(s.)."@)
    } else if x == 2746139466 {
        Some("Reach the goal after defeating at least/all "@ + dec_str(y as nat) + " Rocky Wrench(es)."@)
    } else if x == 2749601092 {
        Some("Reach the goal after grabbing at least/all "@ + dec_str(y as nat) + " 50-Coin(s)."@)
    } else if x == 2855236681 {
        Some("Reach the goal as Flying Squirrel Mario."@)
    } else if x == 3036298571 {
        Some("Reach the goal as Buzzy Mario."@)
    } else if x == 3074433106 {
        Some("Reach the goal as Builder Mario."@)
    } else if x == 3146932243 {
        Some("Reach the goal as Cape Mario."@)
    } else if x == 3174413484 {
        Some("Reach the goal after defeating at least/all "@ + dec_str(y as nat) + " Wendy(s)."@)
    } else if x == 3206222275 {
        Some("Reach the goal while wearing a Cannon Box."@)
    } else if x == 3314955857 {
        Some("Reach the goal as Link."@)
    } else if x == 3342591980 {
        Some("Reach the goal while you have Super Star invincibility."@)
    } else if x == 3346433512 {
        Some("Reach the goal after defeating at least/all "@ + dec_str(y as nat) + " Goombrat(s)/Goombud(s)."@)
    } else if x == 3348058176 {
        Some("Reach the goal after grabbing at least/all "@ + dec_str(y as nat) + " 10-Coin(s)."@)
    } else if x == 3353006607 {
        Some("Reach the goal after defeating at least/all "@ + dec_str(y as nat) + " Buzzy Beetle(s)."@)
    } else if x == 3392229961 {
        Some("Reach the goal after defeating at least/all "@ + dec_str(y as nat) + " Bowser Jr.(s)."@)
    } else if x == 3437308486 {
        Some("Reach the goal after defeating at least/all "@ + dec_str(y as nat) + " Koopa Troopa(s)."@)
    } else if x == 3459144213 {
        Some("Reach the goal after defeating at least/all "@ + dec_str(y as nat) + " Chain Chomp(s)."@)
    } else if x == 3466227835 {
        Some("Reach the goal after defeating at least/all "@ + dec_str(y as nat) + " Muncher(s)."@)
    } else if x == 3481362698 {
        Some("Reach the goal after defeating at least/all "@ + dec_str(y as nat) + " Wiggler(s)."@)
    } else if x == 3513732174 {
        Some("Reach the goal as SMB2 Mario."@)
    } else if x == 3649647177 {
        Some("Reach the goal in a Koopa Clown Car/Junior Clown Car."@)
    } else if x == 3725246406 {
        Some("Reach the goal as Spiny Mario."@)
    } else if x == 3730243509 {
        Some("Reach the goal in a Koopa Troopa Car."@)
    } else if x == 3748075486 {
        Some("Reach the goal after defeating at least/all "@ + dec_str(y as nat) + " Piranha Plant(s)/Jumping Piranha Plant(s)."@)
    } else if x == 3797704544 {
        Some("Reach the goal after defeating at least/all "@ + dec_str(y as nat) + " Dry Bones."@)
    } else if x == 3824561269 {
        Some("Reach the goal after defeating at least/all "@ + dec_str(y as nat) + " Stingby/Stingbies."@)
    } else if x == 3833342952 {
        Some("Reach the goal after defeating at least/all "@ + dec_str(y as nat) + " Piranha Creeper(s)."@)
    } else if x == 3842179831 {
        Some("Reach the goal after defeating at least/all "@ + dec_str(y as nat) + " Fire Piranha Plant(s)."@)
    } else if x == 3874680510 {
        Some("Reach the goal after breaking at least/all "@ + dec_str(y as nat) + " Crates(s)."@)
    } else if x == 3974581191 {
        Some("Reach the goal after defeating at least/all "@ + dec_str(y as nat) + " Ludwig(s)."@)
    } else if x == 3977257962 {
        Some("Reach the goal as Super Mario."@)
    } else if x == 4042480826 {
        Some("Reach the goal after defeating at least/all "@ + dec_str(y as nat) + " Skipsqueak(s)."@)
    } else if x == 4116396131 {
        Some("Reach the goal after grabbing at least/all "@ + dec_str(y as nat) + " Coin(s)."@)
    } else if x == 4117878280 {
        Some("Reach the goal after defeating at least/all "@ + dec_str(y as nat) + " Magikoopa(s)."@)
    } else if x == 4122555074 {
        Some("Reach the goal after grabbing at least/all "@ + dec_str(y as nat) + " 30-Coin(s)."@)
    } else if x == 4153835197 {
        Some("Reach the goal as Balloon Mario."@)
    } else if x == 4172105156 {
        Some("Reach the goal while wearing a Red POW Box."@)
    } else if x == 4209535561 {
        Some("Reach the Goal while riding Yoshi."@)
    } else if x == 4269094462 {
        Some("Reach the goal after defeating at least/all "@ + dec_str(y as nat) + " Spike Top(s)."@)
    } else if x == 4293354249 {
        Some("Reach the goal after defeating at least/all "@ + dec_str(y as nat) + " Banzai Bill(s)."@)
    } else {
        None
    }
}

pub fn num_to_clear_condition(x: u32, y: u16) -> (r: Option<String>)
    ensures
        cond_match(r, clear_condition_text(x, y)),
{
    if x == 0 {
        Some(String::from_str("None"))
    } else if x == 137525990 {
        Some(String::from_str("Reach the goal without landing after leaving the ground."))
    } else if x == 199585683 {
        Some(fmt_count("Reach the goal after defeating at least/all ", y, " Mechakoopa(s)."))
    } else if x == 272349836 {
        Some(fmt_count("Reach the goal after defeating at least/all ", y, " Cheep Cheep(s)."))
    } else if x == 375673178 {
        Some(String::from_str("Reach the goal without taking damage."))
    } else if x == 426197923 {
        Some(String::from_str("Reach the goal as Boomerang Mario."))
    } else if x == 436833616 {
        Some(String::from_str("Reach the goal while wearing a Shoe."))
    } else if x == 713979835 {
        Some(String::from_str("Reach the goal as Fire Mario."))
    } else if x == 744927294 {
        Some(String::from_str("Reach the goal as Frog Mario."))
    } else if x == 751004331 {
        Some(fmt_count("Reach the goal after defeating at least/all ", y, " Larry(s)."))
    } else if x == 900050759 {
        Some(String::from_str("Reach the goal as Raccoon Mario."))
    } else if x == 947659466 {
        Some(fmt_count("Reach the goal after defeating at least/all ", y, " Blooper(s)."))
    } else if x == 976173462 {
        Some(String::from_str("Reach the goal as Propeller Mario."))
    } else if x == 994686866 {
        Some(String::from_str("Reach the goal while wearing a Propeller Box."))
    } else if x == 998904081 {
        Some(fmt_count("Reach the goal after defeating at least/all ", y, " Spike(s)."))
    } else if x == 1008094897 {
        Some(fmt_count("Reach the goal after defeating at least/all ", y, " Boom Boom(s)."))
    } else if x == 1051433633 {
        Some(String::from_str("Reach the goal while holding a Koopa Shell."))
    } else if x == 1061233896 {
        Some(fmt_count("Reach the goal after defeating at least/all ", y, " Porcupuffer(s)."))
    } else if x == 1062253843 {
        Some(fmt_count("Reach the goal after defeating at least/all ", y, " Charvaargh(s)."))
    } else if x == 1079889509 {
        Some(fmt_count("Reach the goal after defeating at least/all ", y, " Bullet Bill(s)."))
    } else if x == 1080535886 {
        Some(fmt_count("Reach the goal after defeating at least/all ", y, " Bully/Bullies."))
    } else if x == 1151250770 {
        Some(String::from_str("Reach the goal while wearing a Goomba Mask."))
    } else if x == 1182464856 {
        Some(fmt_count("Reach the goal after defeating at least/all ", y, " Hop-Chops."))
    } else if x == 1219761531 {
        Some(fmt_count("Reach the goal while holding a Red POW Block. OR Reach the goal after activating at least/all ", y, " Red POW Block(s)."))
    } else if x == 1221661152 {
        Some(fmt_count("Reach the goal after defeating at least/all ", y, " Bob-omb(s)."))
    } else if x == 1259427138 {
        Some(fmt_count("Reach the goal after defeating at least/all ", y, " Spiny/Spinies."))
    } else if x == 1268255615 {
        Some(fmt_count("Reach the goal after defeating at least/all ", y, " Bowser(s)/Meowser(s)."))
    } else if x == 1279580818 {
        Some(fmt_count("Reach the goal after defeating at least/all ", y, " Ant Trooper(s)."))
    } else if x == 1283945123 {
        Some(String::from_str("Reach the goal on a Lakitu's Cloud."))
    } else if x == 1344044032 {
        Some(fmt_count("Reach the goal after defeating at least/all ", y, " Boo(s)."))
    } else if x == 1425973877 {
        Some(fmt_count("Reach the goal after defeating at least/all ", y, " Roy(s)."))
    } else if x == 1429902736 {
        Some(String::from_str("Reach the goal while holding a Trampoline."))
    } else if x == 1431944825 {
        Some(fmt_count("Reach the goal after defeating at least/all ", y, " Morton(s)."))
    } else if x == 1446467058 {
        Some(fmt_count("Reach the goal after defeating at least/all ", y, " Fish Bone(s)."))
    } else if x == 1510495760 {
        Some(fmt_count("Reach the goal after defeating at least/all ", y, " Monty Mole(s)."))
    } else if x == 1656179347 {
        Some(fmt_count("Reach the goal after picking up at least/all ", y, " 1-Up Mushroom(s)."))
    } else if x == 1665820273 {
        Some(fmt_count("Reach the goal after defeating at least/all ", y, " Hammer Bro(s.)."))
    } else if x == 1676924210 {
        Some(fmt_count("Reach the goal after hitting at least/all ", y, " P Switch(es). OR Reach the goal while holding a P Switch."))
    } else if x == 1715960804 {
        Some(fmt_count("Reach the goal after activating at least/all ", y, " POW Block(s). OR Reach the goal while holding a POW Block."))
    } else if x == 1724036958 {
        Some(fmt_count("Reach the goal after defeating at least/all ", y, " Angry Sun(s)."))
    } else if x == 1730095541 {
        Some(fmt_count("Reach the goal after defeating at least/all ", y, " Pokey(s)."))
    } else if x == 1780278293 {
        Some(String::from_str("Reach the goal as Superball Mario."))
    } else if x == 1839897151 {
        Some(fmt_count("Reach the goal after defeating at least/all ", y, " Pom Pom(s)."))
    } else if x == 1969299694 {
        Some(fmt_count("Reach the goal after defeating at least/all ", y, " Peepa(s)."))
    } else if x == 2035052211 {
        Some(fmt_count("Reach the goal after defeating at least/all ", y, " Lakitu(s)."))
    } else if x == 2038503215 {
        Some(fmt_count("Reach the goal after defeating at least/all ", y, " Lemmy(s)."))
    } else if x == 2048033177 {
        Some(fmt_count("Reach the goal after defeating at least/all ", y, " Lava Bubble(s)."))
    } else if x == 2076496776 {
        Some(String::from_str("Reach the goal while wearing a Bullet Bill Mask."))
    } else if x == 2089161429 {
        Some(String::from_str("Reach the goal as Big Mario."))
    } else if x == 2111528319 {
        Some(String::from_str("Reach the goal as Cat Mario."))
    } else if x == 2131209407 {
        Some(fmt_count("Reach the goal after defeating at least/all ", y, " Goomba(s)/Galoomba(s)."))
    } else if x == 2139645066 {
        Some(fmt_count("Reach the goal after defeating at least/all ", y, " Thwomp(s)."))
    } else if x == 2259346429 {
        Some(fmt_count("Reach the goal after defeating at least/all ", y, " Iggy(s)."))
    } else if x == 2549654281 {
        Some(String::from_str("Reach the goal while wearing a Dry Bones Shell."))
    } else if x == 2694559007 {
        Some(fmt_count("Reach the goal after defeating at least/all ", y, " Sledge Bro(s.)."))
    } else if x == 2746139466 {
        Some(fmt_count("Reach the goal after defeating at least/all ", y, " Rocky Wrench(es)."))
    } else if x == 2749601092 {
        Some(fmt_count("Reach the goal after grabbing at least/all ", y, " 50-Coin(s)."))
    } else if x == 2855236681 {
        Some(String::from_str("Reach the goal as Flying Squirrel Mario."))
    } else if x == 3036298571 {
        Some(String::from_str("Reach the goal as Buzzy Mario."))
    } else if x == 3074433106 {
        Some(String::from_str("Reach the goal as Builder Mario."))
    } else if x == 3146932243 {
        Some(String::from_str("Reach the goal as Cape Mario."))
    } else if x == 3174413484 {
        Some(fmt_count("Reach the goal after defeating at least/all ", y, " Wendy(s)."))
    } else if x == 3206222275 {
        Some(String::from_str("Reach the goal while wearing a Cannon Box."))
    } else if x == 3314955857 {
        Some(String::from_str("Reach the goal as Link."))
    } else if x == 3342591980 {
        Some(String::from_str("Reach the goal while you have Super Star invincibility."))
    } else if x == 3346433512 {
        Some(fmt_count("Reach the goal after defeating at least/all ", y, " Goombrat(s)/Goombud(s)."))
    } else if x == 3348058176 {
        Some(fmt_count("Reach the goal after grabbing at least/all ", y, " 10-Coin(s)."))
    } else if x == 3353006607 {
        Some(fmt_count("Reach the goal after defeating at least/all ", y, " Buzzy Beetle(s)."))
    } else if x == 3392229961 {
        Some(fmt_count("Reach the goal after defeating at least/all ", y, " Bowser Jr.(s)."))
    } else if x == 3437308486 {
        Some(fmt_count("Reach the goal after defeating at least/all ", y, " Koopa Troopa(s)."))
    } else if x == 3459144213 {
        Some(fmt_count("Reach the goal after defeating at least/all ", y, " Chain Chomp(s)."))
    } else if x == 3466227835 {
        Some(fmt_count("Reach the goal after defeating at least/all ", y, " Muncher(s)."))
    } else if x == 3481362698 {
        Some(fmt_count("Reach the goal after defeating at least/all ", y, " Wiggler(s)."))
    } else if x == 3513732174 {
        Some(String::from_str("Reach the goal as SMB2 Mario."))
    } else if x == 3649647177 {
        Some(String::from_str("Reach the goal in a Koopa Clown Car/Junior Clown Car."))
    } else if x == 3725246406 {
        Some(String::from_str("Reach the goal as Spiny Mario."))
    } else if x == 3730243509 {
        Some(String::from_str("Reach the goal in a Koopa Troopa Car."))
    } else if x == 3748075486 {
        Some(fmt_count("Reach the goal after defeating at least/all ", y, " Piranha Plant(s)/Jumping Piranha Plant(s)."))
    } else if x == 3797704544 {
        Some(fmt_count("Reach the goal after defeating at least/all ", y, " Dry Bones."))
    } else if x == 3824561269 {
        Some(fmt_count("Reach the goal after defeating at least/all ", y, " Stingby/Stingbies."))
    } else if x == 3833342952 {
        Some(fmt_count("Reach the goal after defeating at least/all ", y, " Piranha Creeper(s)."))
    } else if x == 3842179831 {
        Some(fmt_count("Reach the goal after defeating at least/all ", y, " Fire Piranha Plant(s)."))
    } else if x == 3874680510 {
        Some(fmt_count("Reach the goal after breaking at least/all ", y, " Crates(s)."))
    } else if x == 3974581191 {
        Some(fmt_count("Reach the goal after defeating at least/all ", y, " Ludwig(s)."))
    } else if x == 3977257962 {
        Some(String::from_str("Reach the goal as Super Mario."))
    } else if x == 4042480826 {
        Some(fmt_count("Reach the goal after defeating at least/all ", y, " Skipsqueak(s)."))
    } else if x == 4116396131 {
        Some(fmt_count("Reach the goal after grabbing at least/all ", y, " Coin(s)."))
    } else if x == 4117878280 {
        Some(fmt_count("Reach the goal after defeating at least/all ", y, " Magikoopa(s)."))
    } else if x == 4122555074 {
        Some(fmt_count("Reach the goal after grabbing at least/all ", y, " 30-Coin(s)."))
    } else if x == 4153835197 {
        Some(String::from_str("Reach the goal as Balloon Mario."))
    } else if x == 4172105156 {
        Some(String::from_str("Reach the goal while wearing a Red POW Box."))
    } else if x == 4209535561 {
        Some(String::from_str("Reach the Goal while riding Yoshi."))
    } else if x == 4269094462 {
        Some(fmt_count("Reach the goal after defeating at least/all ", y, " Spike Top(s)."))
    } else if x == 4293354249 {
        Some(fmt_count("Reach the goal after defeating at least/all ", y, " Banzai Bill(s)."))
    } else {
        None
    }
}

/// The display name of an object: keyed by the object id, two flag bits
/// (the alternate-item bit and the door sub-type bits) and the game style,
/// with flag checks taking precedence over style checks.
pub open spec fn object_name(id: i16, flag: u32, game_style: u16) -> Option<Seq<char>> {
    let alt_item = flag & FLAG_ALT_ITEM != 0;
    let is_p_door = flag & FLAG_IS_P_DOOR != 0;
    let is_key_door = flag & FLAG_IS_KEY_DOOR != 0;
    if id == 0 && !alt_item {
        if game_style == GAME_STYLE_SMB1 || game_style == GAME_STYLE_SMB3 || game_style == GAME_STYLE_NSMBU || game_style == GAME_STYLE_SM3DW {
        Some("Goomba"@)
    } else if game_style == GAME_STYLE_SMW {
        Some("Galoomba"@)
    } else {
        None
    }
    } else if id == 0 && alt_item {
        if game_style == GAME_STYLE_SMB1 || game_style == GAME_STYLE_SMB3 || game_style == GAME_STYLE_NSMBU || game_style == GAME_STYLE_SM3DW {
        Some("Goombrat"@)
    } else if game_style == GAME_STYLE_SMW {
        Some("Goombud"@)
    } else {
        None
    }
    } else if id == 1 {
        Some("Koopa"@)
    } else if id == 2 {
        Some("Piranha Plant"@)
    } else if id == 3 {
        Some("Hammer Bro"@)
    } else if id == 4 {
        Some("Block"@)
    } else if id == 5 {
        Some("? Block"@)
    } else if id == 6 {
        Some("Stone"@)
    } else if id == 7 {
        Some("Hard Block"@)
    } else if id == 8 {
        Some("Coin"@)
    } else if id == 9 {
        Some("Pipe"@)
    } else if id == 10 {
        Some("Trampoline"@)
    } else if id == 11 {
        Some("Lift"@)
    } else if id == 12 {
        Some("Thwomp"@)
    } else if id == 13 {
        Some("Bill Blaster"@)
    } else if id == 14 {
        Some("Mushroom Platform"@)
    } else if id == 15 {
        Some("Bob-omb"@)
    } else if id == 16 {
        Some("Semisolid Platform"@)
    } else if id == 17 {
        Some("Bridge"@)
    } else if id == 18 {
        Some("P Switch"@)
    } else if id == 19 {
        Some("POW"@)
    } else if id == 20 && !alt_item {
        Some("Super Mushroom"@)
    } else if id == 20 && alt_item {
        Some("Master Sword"@)
    } else if id == 21 {
        Some("Donut Block"@)
    } else if id == 22 {
        Some("Cloud"@)
    } else if id == 23 {
        Some("Note Block"@)
    } else if id == 24 {
        Some("Fire Bar"@)
    } else if id == 25 {
        Some("Spiny"@)
    } else if id == 26 {
        Some("Hard Block (Goal)"@)
    } else if id == 27 {
        Some("Goal"@)
    } else if id == 28 {
        Some("Buzzy Beetle"@)
    } else if id == 29 {
        Some("Hidden Block"@)
    } else if id == 30 {
        Some("Lakitu"@)
    } else if id == 31 {
        Some("Lakitu Cloud"@)
    } else if id == 32 {
        Some("Banzai Bill"@)
    } else if id == 33 {
        Some("1-Up Mushroom"@)
    } else if id == 34 && !alt_item {
        Some("Fire Flower"@)
    } else if id == 34 && alt_item {
        Some("Superball Flower"@)
    } else if id == 35 {
        Some("Super Star"@)
    } else if id == 36 {
        Some("Lava Lift"@)
    } else if id == 37 {
        Some("Starting Brick"@)
    } else if id == 38 {
        Some("Starting Arrow"@)
    } else if id == 39 {
        Some("Magikoopa"@)
    } else if id == 40 {
        Some("Spike Top"@)
    } else if id == 41 {
        Some("Boo"@)
    } else if id == 42 {
        Some("Koopa Clown Car"@)
    } else if id == 43 {
        Some("Spike Trap"@)
    } else if id == 44 {
        if game_style == GAME_STYLE_SMB1 {
        Some("Big Mushroom"@)
    } else if game_style == GAME_STYLE_SMB3 {
        Some("Super Leaf"@)
    } else if game_style == GAME_STYLE_SMW {
        Some("Cape Feather"@)
    } else if game_style == GAME_STYLE_NSMBU {
        Some("Propeller Mushroom"@)
    } else if game_style == GAME_STYLE_SM3DW {
        Some("Super Bell"@)
    } else {
        None
    }
    } else if id == 45 {
        if game_style == GAME_STYLE_SMB1 || game_style == GAME_STYLE_SMB3 {
        Some("Shoe Goomba"@)
    } else if game_style == GAME_STYLE_SMW || game_style == GAME_STYLE_NSMBU {
        Some("Yoshi"@)
    } else {
        None
    }
    } else if id == 46 {
        Some("Dry Bones"@)
    } else if id == 47 {
        Some("Cannon"@)
    } else if id == 48 {
        Some("Blooper"@)
    } else if id == 49 {
        Some("Castle Bridge"@)
    } else if id == 50 {
        Some("Hop-Chops"@)
    } else if id == 51 {
        Some("Skipsqueak"@)
    } else if id == 52 {
        Some("Wiggler"@)
    } else if id == 53 {
        Some("Conveyor Belt"@)
    } else if id == 54 {
        Some("Burner"@)
    } else if id == 55 && is_p_door {
        Some("P Warp Door"@)
    } else if id == 55 && is_key_door {
        Some("Key Door"@)
    } else if id == 55 {
        Some("Warp Door"@)
    } else if id == 56 {
        Some("Cheep Cheep"@)
    } else if id == 57 {
        Some("Muncher"@)
    } else if id == 58 {
        Some("Rocky Wrench"@)
    } else if id == 59 {
        Some("Track"@)
    } else if id == 60 {
        Some("Lava Bubble"@)
    } else if id == 61 {
        Some("Chain Chomp"@)
    } else if id == 62 {
        Some("Bowser"@)
    } else if id == 63 {
        Some("Ice Block"@)
    } else if id == 64 {
        Some("Vine"@)
    } else if id == 65 {
        Some("Stingby"@)
    } else if id == 66 {
        Some("Arrow"@)
    } else if id == 67 {
        Some("One-Way Wall"@)
    } else if id == 68 {
        Some("Grinder"@)
    } else if id == 69 {
        Some("Player"@)
    } else if id == 70 {
        Some("Big Coin"@)
    } else if id == 71 {
        Some("Half Collision Platform"@)
    } else if id == 72 {
        Some("Koopa Troopa Car"@)
    } else if id == 74 && !alt_item {
        Some("Spike"@)
    } else if id == 74 && alt_item {
        Some("Spike Ball"@)
    } else if id == 75 {
        Some("Stone"@)
    } else if id == 76 {
        Some("Twister"@)
    } else if id == 77 {
        Some("Boom Boom"@)
    } else if id == 78 {
        Some("Pokey"@)
    } else if id == 79 {
        Some("P Block"@)
    } else if id == 80 {
        Some("Dash Block"@)
    } else if id == 81 {
        if game_style == GAME_STYLE_SMB1 {
        Some("SMB2 Mushroom"@)
    } else if game_style == GAME_STYLE_SMB3 {
        Some("Frog Suit"@)
    } else if game_style == GAME_STYLE_SMW {
        Some("Power Balloon"@)
    } else if game_style == GAME_STYLE_NSMBU {
        Some("Super Acorn"@)
    } else if game_style == GAME_STYLE_SM3DW {
        Some("Boomerang Flower"@)
    } else {
        None
    }
    } else if id == 82 {
        Some("Bumper"@)
    } else if id == 83 {
        Some("Skewer"@)
    } else if id == 84 {
        Some("Snake Block"@)
    } else if id == 85 {
        Some("Track Block"@)
    } else if id == 86 {
        Some("Charvaargh"@)
    } else if id == 87 {
        Some("Slight Slope"@)
    } else if id == 88 {
        Some("Steep Slope"@)
    } else if id == 89 {
        Some("Reel Camera"@)
    } else if id == 90 {
        Some("Checkpoint Flag"@)
    } else if id == 91 {
        Some("Seesaw"@)
    } else if id == 92 {
        Some("Pink Coin"@)
    } else if id == 93 {
        Some("Clear Pipe"@)
    } else if id == 94 {
        Some("Conveyor Belt"@)
    } else if id == 95 {
        Some("Key"@)
    } else if id == 96 {
        Some("Ant Trooper"@)
    } else if id == 97 {
        Some("Warp Box"@)
    } else if id == 98 {
        Some("Bowser Jr."@)
    } else if id == 99 {
        Some("ON/OFF Switch"@)
    } else if id == 100 {
        Some("Dotted-Line Block"@)
    } else if id == 101 {
        Some("Water Marker"@)
    } else if id == 102 {
        Some("Monty Mole"@)
    } else if id == 103 {
        Some("Fish Bone"@)
    } else if id == 104 {
        Some("Angry Sun/Moon"@)
    } else if id == 105 {
        Some("Swinging Claw"@)
    } else if id == 106 {
        Some("Tree"@)
    } else if id == 107 {
        Some("Piranha Creeper"@)
    } else if id == 108 {
        Some("Blinking Block"@)
    } else if id == 109 {
        Some("Sound Effect"@)
    } else if id == 110 {
        Some("Spike Block"@)
    } else if id == 111 {
        Some("Mechakoopa"@)
    } else if id == 112 {
        Some("Crate"@)
    } else if id == 113 {
        Some("Mushroom Trampoline"@)
    } else if id == 114 {
        Some("Porcupuffer"@)
    } else if id == 116 {
        Some("Super Hammer"@)
    } else if id == 117 {
        Some("Bully"@)
    } else if id == 118 {
        Some("Icicle"@)
    } else if id == 119 {
        Some("! Block"@)
    } else if id == 120 {
        Some("Lemmy"@)
    } else if id == 121 {
        Some("Morton"@)
    } else if id == 122 {
        Some("Larry"@)
    } else if id == 123 {
        Some("Wendy"@)
    } else if id == 124 {
        Some("Iggy"@)
    } else if id == 125 {
        Some("Roy"@)
    } else if id == 126 {
        Some("Ludwig"@)
    } else if id == 127 {
        Some("Cannon Box"@)
    } else if id == 128 {
        Some("Propeller Box"@)
    } else if id == 129 {
        Some("Goomba Mask"@)
    } else if id == 130 {
        Some("Bullet Bill Mask"@)
    } else if id == 131 {
        Some("Red POW Box"@)
    } else if id == 132 {
        Some("ON/OFF Trampoline"@)
    } else {
        None
    }
}

pub fn num_to_name(id: i16, flag: u32, game_style: u16) -> (r: Option<&'static str>)
    ensures
        names_match(r, object_name(id, flag, game_style)),
{
    let alt_item = flag & FLAG_ALT_ITEM != 0;
    let is_p_door = flag & FLAG_IS_P_DOOR != 0;
    let is_key_door = flag & FLAG_IS_KEY_DOOR != 0;
    if id == 0 && !alt_item {
        if game_style == GAME_STYLE_SMB1 || game_style == GAME_STYLE_SMB3 || game_style == GAME_STYLE_NSMBU || game_style == GAME_STYLE_SM3DW {
        Some("Goomba")
    } else if game_style == GAME_STYLE_SMW {
        Some("Galoomba")
    } else {
        None
    }
    } else if id == 0 && alt_item {
        if game_style == GAME_STYLE_SMB1 || game_style == GAME_STYLE_SMB3 || game_style == GAME_STYLE_NSMBU || game_style == GAME_STYLE_SM3DW {
        Some("Goombrat")
    } else if game_style == GAME_STYLE_SMW {
        Some("Goombud")
    } else {
        None
    }
    } else if id == 1 {
        Some("Koopa")
    } else if id == 2 {
        Some("Piranha Plant")
    } else if id == 3 {
        Some("Hammer Bro")
    } else if id == 4 {
        Some("Block")
    } else if id == 5 {
        Some("? Block")
    } else if id == 6 {
        Some("Stone")
    } else if id == 7 {
        Some("Hard Block")
    } else if id == 8 {
        Some("Coin")
    } else if id == 9 {
        Some("Pipe")
    } else if id == 10 {
        Some("Trampoline")
    } else if id == 11 {
        Some("Lift")
    } else if id == 12 {
        Some("Thwomp")
    } else if id == 13 {
        Some("Bill Blaster")
    } else if id == 14 {
        Some("Mushroom Platform")
    } else if id == 15 {
        Some("Bob-omb")
    } else if id == 16 {
        Some("Semisolid Platform")
    } else if id == 17 {
        Some("Bridge")
    } else if id == 18 {
        Some("P Switch")
    } else if id == 19 {
        Some("POW")
    } else if id == 20 && !alt_item {
        Some("Super Mushroom")
    } else if id == 20 && alt_item {
        Some("Master Sword")
    } else if id == 21 {
        Some("Donut Block")
    } else if id == 22 {
        Some("Cloud")
    } else if id == 23 {
        Some("Note Block")
    } else if id == 24 {
        Some("Fire Bar")
    } else if id == 25 {
        Some("Spiny")
    } else if id == 26 {
        Some("Hard Block (Goal)")
    } else if id == 27 {
        Some("Goal")
    } else if id == 28 {
        Some("Buzzy Beetle")
    } else if id == 29 {
        Some("Hidden Block")
    } else if id == 30 {
        Some("Lakitu")
    } else if id == 31 {
        Some("Lakitu Cloud")
    } else if id == 32 {
        Some("Banzai Bill")
    } else if id == 33 {
        Some("1-Up Mushroom")
    } else if id == 34 && !alt_item {
        Some("Fire Flower")
    } else if id == 34 && alt_item {
        Some("Superball Flower")
    } else if id == 35 {
        Some("Super Star")
    } else if id == 36 {
        Some("Lava Lift")
    } else if id == 37 {
        Some("Starting Brick")
    } else if id == 38 {
        Some("Starting Arrow")
    } else if id == 39 {
        Some("Magikoopa")
    } else if id == 40 {
        Some("Spike Top")
    } else if id == 41 {
        Some("Boo")
    } else if id == 42 {
        Some("Koopa Clown Car")
    } else if id == 43 {
        Some("Spike Trap")
    } else if id == 44 {
        if game_style == GAME_STYLE_SMB1 {
        Some("Big Mushroom")
    } else if game_style == GAME_STYLE_SMB3 {
        Some("Super Leaf")
    } else if game_style == GAME_STYLE_SMW {
        Some("Cape Feather")
    } else if game_style == GAME_STYLE_NSMBU {
        Some("Propeller Mushroom")
    } else if game_style == GAME_STYLE_SM3DW {
        Some("Super Bell")
    } else {
        None
    }
    } else if id == 45 {
        if game_style == GAME_STYLE_SMB1 || game_style == GAME_STYLE_SMB3 {
        Some("Shoe Goomba")
    } else if game_style == GAME_STYLE_SMW || game_style == GAME_STYLE_NSMBU {
        Some("Yoshi")
    } else {
        None
    }
    } else if id == 46 {
        Some("Dry Bones")
    } else if id == 47 {
        Some("Cannon")
    } else if id == 48 {
        Some("Blooper")
    } else if id == 49 {
        Some("Castle Bridge")
    } else if id == 50 {
        Some("Hop-Chops")
    } else if id == 51 {
        Some("Skipsqueak")
    } else if id == 52 {
        Some("Wiggler")
    } else if id == 53 {
        Some("Conveyor Belt")
    } else if id == 54 {
        Some("Burner")
    } else if id == 55 && is_p_door {
        Some("P Warp Door")
    } else if id == 55 && is_key_door {
        Some("Key Door")
    } else if id == 55 {
        Some("Warp Door")
    } else if id == 56 {
        Some("Cheep Cheep")
    } else if id == 57 {
        Some("Muncher")
    } else if id == 58 {
        Some("Rocky Wrench")
    } else if id == 59 {
        Some("Track")
    } else if id == 60 {
        Some("Lava Bubble")
    } else if id == 61 {
        Some("Chain Chomp")
    } else if id == 62 {
        Some("Bowser")
    } else if id == 63 {
        Some("Ice Block")
    } else if id == 64 {
        Some("Vine")
    } else if id == 65 {
        Some("Stingby")
    } else if id == 66 {
        Some("Arrow")
    } else if id == 67 {
        Some("One-Way Wall")
    } else if id == 68 {
        Some("Grinder")
    } else if id == 69 {
        Some("Player")
    } else if id == 70 {
        Some("Big Coin")
    } else if id == 71 {
        Some("Half Collision Platform")
    } else if id == 72 {
        Some("Koopa Troopa Car")
    } else if id == 74 && !alt_item {
        Some("Spike")
    } else if id == 74 && alt_item {
        Some("Spike Ball")
    } else if id == 75 {
        Some("Stone")
    } else if id == 76 {
        Some("Twister")
    } else if id == 77 {
        Some("Boom Boom")
    } else if id == 78 {
        Some("Pokey")
    } else if id == 79 {
        Some("P Block")
    } else if id == 80 {
        Some("Dash Block")
    } else if id == 81 {
        if game_style == GAME_STYLE_SMB1 {
        Some("SMB2 Mushroom")
    } else if game_style == GAME_STYLE_SMB3 {
        Some("Frog Suit")
    } else if game_style == GAME_STYLE_SMW {
        Some("Power Balloon")
    } else if game_style == GAME_STYLE_NSMBU {
        Some("Super Acorn")
    } else if game_style == GAME_STYLE_SM3DW {
        Some("Boomerang Flower")
    } else {
        None
    }
    } else if id == 82 {
        Some("Bumper")
    } else if id == 83 {
        Some("Skewer")
    } else if id == 84 {
        Some("Snake Block")
    } else if id == 85 {
        Some("Track Block")
    } else if id == 86 {
        Some("Charvaargh")
    } else if id == 87 {
        Some("Slight Slope")
    } else if id == 88 {
        Some("Steep Slope")
    } else if id == 89 {
        Some("Reel Camera")
    } else if id == 90 {
        Some("Checkpoint Flag")
    } else if id == 91 {
        Some("Seesaw")
    } else if id == 92 {
        Some("Pink Coin")
    } else if id == 93 {
        Some("Clear Pipe")
    } else if id == 94 {
        Some("Conveyor Belt")
    } else if id == 95 {
        Some("Key")
    } else if id == 96 {
        Some("Ant Trooper")
    } else if id == 97 {
        Some("Warp Box")
    } else if id == 98 {
        Some("Bowser Jr.")
    } else if id == 99 {
        Some("ON/OFF Switch")
    } else if id == 100 {
        Some("Dotted-Line Block")
    } else if id == 101 {
        Some("Water Marker")
    } else if id == 102 {
        Some("Monty Mole")
    } else if id == 103 {
        Some("Fish Bone")
    } else if id == 104 {
        Some("Angry Sun/Moon")
    } else if id == 105 {
        Some("Swinging Claw")
    } else if id == 106 {
        Some("Tree")
    } else if id == 107 {
        Some("Piranha Creeper")
    } else if id == 108 {
        Some("Blinking Block")
    } else if id == 109 {
        Some("Sound Effect")
    } else if id == 110 {
        Some("Spike Block")
    } else if id == 111 {
        Some("Mechakoopa")
    } else if id == 112 {
        Some("Crate")
    } else if id == 113 {
        Some("Mushroom Trampoline")
    } else if id == 114 {
        Some("Porcupuffer")
    } else if id == 116 {
        Some("Super Hammer")
    } else if id == 117 {
        Some("Bully")
    } else if id == 118 {
        Some("Icicle")
    } else if id == 119 {
        Some("! Block")
    } else if id == 120 {
        Some("Lemmy")
    } else if id == 121 {
        Some("Morton")
    } else if id == 122 {
        Some("Larry")
    } else if id == 123 {
        Some("Wendy")
    } else if id == 124 {
        Some("Iggy")
    } else if id == 125 {
        Some("Roy")
    } else if id == 126 {
        Some("Ludwig")
    } else if id == 127 {
        Some("Cannon Box")
    } else if id == 128 {
        Some("Propeller Box")
    } else if id == 129 {
        Some("Goomba Mask")
    } else if id == 130 {
        Some("Bullet Bill Mask")
    } else if id == 131 {
        Some("Red POW Box")
    } else if id == 132 {
        Some("ON/OFF Trampoline")
    } else {
        None
    }
}

impl LevelHeader {
    pub fn game_style_str(&self) -> (r: Option<&'static str>)
        ensures
            names_match(r, game_style_name(self.game_style)),
    {
        num_to_game_style(self.game_style)
    }

    pub fn clear_condition_category_str(&self) -> (r: Option<&'static str>)
        ensures
            names_match(r, clear_condition_category_name(self.clear_cc)),
    {
        num_to_clear_condition_category(self.clear_cc)
    }

    pub fn game_version_str(&self) -> (r: Option<&'static str>)
        ensures
            names_match(r, game_version_name(self.clear_version)),
    {
        num_to_game_version(self.clear_version)
    }

    pub fn clear_condition_str(&self) -> (r: Option<String>)
        ensures
            cond_match(r, clear_condition_text(self.clear_crc, self.clear_ca)),
    {
        num_to_clear_condition(self.clear_crc, self.clear_ca)
    }

    pub fn autoscroll_speed_str(&self) -> (r: Option<&'static str>)
        ensures
            names_match(r, autoscroll_speed_name(self.autoscroll_speed)),
    {
        num_to_autoscroll_speed(self.autoscroll_speed)
    }
}

impl MapHeader {
    pub fn theme_str(&self) -> (r: Option<&'static str>)
        ensures
            names_match(r, theme_name(self.theme)),
    {
        num_to_theme(self.theme)
    }

    pub fn autoscroll_type_str(&self) -> (r: Option<&'static str>)
        ensures
            names_match(r, autoscroll_type_name(self.autoscroll_type)),
    {
        num_to_autoscroll_type(self.autoscroll_type)
    }

    pub fn boundary_type_str(&self) -> (r: Option<&'static str>)
        ensures
            names_match(r, boundary_type_name(self.bor_flag)),
    {
        num_to_boundary_type(self.bor_flag)
    }

    pub fn orientation_str(&self) -> (r: Option<&'static str>)
        ensures
            names_match(r, orientation_name(self.ori)),
    {
        num_to_orientation(self.ori)
    }

    pub fn liquid_mode_str(&self) -> (r: Option<&'static str>)
        ensures
            names_match(r, liquid_mode_name(self.liq_mode)),
    {
        num_to_liquid_mode(self.liq_mode)
    }

    pub fn liquid_speed_str(&self) -> (r: Option<&'static str>)
        ensures
            names_match(r, liquid_speed_name(self.liq_speed)),
    {
        num_to_liquid_speed(self.liq_speed)
    }
}

impl MapObject {
    /// The display name of this object under the given game style.
    pub fn name(&self, game_style: u16) -> (r: Option<&'static str>)
        ensures
            names_match(r, object_name(self.id, self.flag, game_style)),
    {
        num_to_name(self.id, self.flag, game_style)
    }
}

} // verus!
