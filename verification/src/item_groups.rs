//! Named groups of related items: a handful of fixed powerup groups, and ad
//! hoc groups written as separator-joined lists.

use vstd::prelude::*;

use crate::text::{split_by, split_chars, str_eq};

verus! {

/// The items a group name stands for: the two fixed powerup groups, or the
/// name split on commas and slashes.
pub open spec fn group_of(s: Seq<char>) -> Seq<Seq<char>> {
    if s == "Style Powerup 1"@ {
        seq![
            "Big Mushroom"@,
            "Super Leaf"@,
            "Cape Feather"@,
            "Propeller Mushroom"@,
            "Super Bell"@,
        ]
    } else if s == "Style Powerup 2"@ || s == "Update 2 Powerup"@ {
        seq![
            "SMB2 Mushroom"@,
            "Frog Suit"@,
            "Power Balloon"@,
            "Super Acorn"@,
            "Boomerang Flower"@,
        ]
    } else {
        split_by(s, seq![',', '/'])
    }
}

/// Expands a group name into its items.
pub fn get_group<'a>(s: &'a str) -> (r: Vec<&'a str>)
    ensures
        r.deep_view() == group_of(s@),
{
    if str_eq(s, "Style Powerup 1") {
        let mut r: Vec<&'a str> = Vec::new();
        r.push("Big Mushroom");
        r.push("Super Leaf");
        r.push("Cape Feather");
        r.push("Propeller Mushroom");
        r.push("Super Bell");
        proof {
            assert(r.deep_view() =~= group_of(s@));
        }
        r
    } else if str_eq(s, "Style Powerup 2") || str_eq(s, "Update 2 Powerup") {
        let mut r: Vec<&'a str> = Vec::new();
        r.push("SMB2 Mushroom");
        r.push("Frog Suit");
        r.push("Power Balloon");
        r.push("Super Acorn");
        r.push("Boomerang Flower");
        proof {
            assert(r.deep_view() =~= group_of(s@));
        }
        r
    } else {
        let seps: [char; 2] = [',', '/'];
        let r = split_chars(s, seps.as_slice());
        proof {
            assert(seps@ =~= seq![',', '/']);
        }
        r
    }
}

} // verus!
