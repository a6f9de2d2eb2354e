//! Parsing of pair-count lines, the comma-separated records the statistics
//! tools exchange: two item names and how often they were seen together.

use vstd::prelude::*;

use crate::text::{parse_u64, parsed_u64, split_by, split_chars};

verus! {

/// What a pair-count line means: the first two comma-separated fields are the
/// item names, the third is the count; extra fields are ignored, and a line
/// with fewer than three fields or a count that does not parse means nothing.
pub open spec fn pair_line_parsed(s: Seq<char>) -> Option<((Seq<char>, Seq<char>), u64)> {
    let ps = split_by(s, seq![',']);
    if ps.len() >= 3 {
        match parsed_u64(ps[2]) {
            Some(n) => Some(((ps[0], ps[1]), n)),
            None => None,
        }
    } else {
        None
    }
}

/// Parses one line of a pairs file.
pub fn parse_pair_line(line: &str) -> (r: Option<((String, String), u64)>)
    ensures
        r is Some <==> pair_line_parsed(line@) is Some,
        r matches Some(p) ==> pair_line_parsed(line@) matches Some(q) && p.0.0@ == q.0.0 && p.0.1@
            == q.0.1 && p.1 == q.1,
{
    let seps: [char; 1] = [','];
    let fields = split_chars(line, seps.as_slice());
    proof {
        assert(seps@ =~= seq![',']);
    }
    if fields.len() < 3 {
        return None;
    }
    let count = match parse_u64(fields[2]) {
        Some(n) => n,
        None => {
            return None;
        },
    };
    Some(((String::from_str(fields[0]), String::from_str(fields[1])), count))
}

} // verus!
