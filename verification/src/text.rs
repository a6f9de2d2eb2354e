//! Small verified text utilities: decimal rendering of counters, decimal
//! parsing of counters, and separator splitting.

use vstd::prelude::*;

verus! {

/// The decimal digit character for `d` (0 to 9).
pub open spec fn digit_char(d: int) -> char {
    if d == 0 {
        '0'
    } else if d == 1 {
        '1'
    } else if d == 2 {
        '2'
    } else if d == 3 {
        '3'
    } else if d == 4 {
        '4'
    } else if d == 5 {
        '5'
    } else if d == 6 {
        '6'
    } else if d == 7 {
        '7'
    } else if d == 8 {
        '8'
    } else {
        '9'
    }
}

/// The decimal rendering of `n`, without sign or leading zeros (except for 0
/// itself).
pub open spec fn dec_str(n: nat) -> Seq<char>
    decreases n,
{
    if n < 10 {
        seq![digit_char(n as int)]
    } else {
        dec_str(n / 10) + seq![digit_char((n % 10) as int)]
    }
}

fn digit_lit(d: u16) -> (r: &'static str)
    requires
        d < 10,
    ensures
        r@ == seq![digit_char(d as int)],
{
    if d == 0 {
        proof {
            reveal_strlit("0");
            assert("0"@ =~= seq!['0']);
        }
        "0"
    } else if d == 1 {
        proof {
            reveal_strlit("1");
            assert("1"@ =~= seq!['1']);
        }
        "1"
    } else if d == 2 {
        proof {
            reveal_strlit("2");
            assert("2"@ =~= seq!['2']);
        }
        "2"
    } else if d == 3 {
        proof {
            reveal_strlit("3");
            assert("3"@ =~= seq!['3']);
        }
        "3"
    } else if d == 4 {
        proof {
            reveal_strlit("4");
            assert("4"@ =~= seq!['4']);
        }
        "4"
    } else if d == 5 {
        proof {
            reveal_strlit("5");
            assert("5"@ =~= seq!['5']);
        }
        "5"
    } else if d == 6 {
        proof {
            reveal_strlit("6");
            assert("6"@ =~= seq!['6']);
        }
        "6"
    } else if d == 7 {
        proof {
            reveal_strlit("7");
            assert("7"@ =~= seq!['7']);
        }
        "7"
    } else if d == 8 {
        proof {
            reveal_strlit("8");
            assert("8"@ =~= seq!['8']);
        }
        "8"
    } else {
        proof {
            reveal_strlit("9");
            assert("9"@ =~= seq!['9']);
        }
        "9"
    }
}

/// Renders a counter in decimal.
pub fn u16_to_string(n: u16) -> (r: String)
    ensures
        r@ == dec_str(n as nat),
    decreases n,
{
    if n < 10 {
        String::from_str(digit_lit(n))
    } else {
        let mut s = u16_to_string(n / 10);
        s.append(digit_lit(n % 10));
        s
    }
}

/// Whether `c` is a decimal digit.
pub open spec fn is_digit(c: char) -> bool {
    48 <= c as int && c as int <= 57
}

pub open spec fn all_digits(s: Seq<char>) -> bool {
    forall|i: int| 0 <= i < s.len() ==> is_digit(#[trigger] s[i])
}

/// The integer value of a digit string (most significant digit first).
pub open spec fn dec_val(s: Seq<char>) -> int
    decreases s.len(),
{
    if s.len() == 0 {
        0
    } else {
        dec_val(s.drop_last()) * 10 + (s.last() as int - 48)
    }
}

proof fn lemma_dec_val_nonneg(s: Seq<char>)
    requires
        all_digits(s),
    ensures
        dec_val(s) >= 0,
    decreases s.len(),
{
    if s.len() > 0 {
        assert(all_digits(s.drop_last()));
        lemma_dec_val_nonneg(s.drop_last());
    }
}

/// A digit string is worth at least any of its prefixes.
proof fn lemma_dec_val_prefix_le(s: Seq<char>, k: int)
    requires
        all_digits(s),
        0 <= k <= s.len(),
    ensures
        dec_val(s.take(k)) <= dec_val(s),
    decreases s.len() - k,
{
    if k < s.len() {
        lemma_dec_val_prefix_le(s, k + 1);
        assert(s.take(k + 1).drop_last() =~= s.take(k));
        assert(all_digits(s.take(k)));
        lemma_dec_val_nonneg(s.take(k));
        assert(dec_val(s.take(k + 1)) == dec_val(s.take(k)) * 10 + (s[k] as int - 48));
    } else {
        assert(s.take(k) =~= s);
    }
}

/// What `str::parse::<u64>` accepts: an optional leading plus sign, then one
/// or more decimal digits, whose value fits.
pub open spec fn parsed_u64(s: Seq<char>) -> Option<u64> {
    let digits = if s.len() >= 1 && s[0] == '+' {
        s.drop_first()
    } else {
        s
    };
    if digits.len() > 0 && all_digits(digits) && dec_val(digits) <= u64::MAX {
        Some(dec_val(digits) as u64)
    } else {
        None
    }
}

/// Parses a decimal counter, as `str::parse::<u64>` would: `None` for an
/// empty string, a non-digit, or overflow.
pub fn parse_u64(s: &str) -> (r: Option<u64>)
    ensures
        r == parsed_u64(s@),
{
    let len = s.unicode_len();
    let mut start: usize = 0;
    if len >= 1 && s.get_char(0) == '+' {
        start = 1;
    }
    let ghost digits = if s@.len() >= 1 && s@[0] == '+' {
        s@.drop_first()
    } else {
        s@
    };
    if start == len {
        return None;
    }
    let mut acc: u64 = 0;
    let mut j: usize = start;
    while j < len
        invariant
            start <= j <= len,
            len == s@.len(),
            start == 0 || start == 1,
            start == 1 <==> (s@.len() >= 1 && s@[0] == '+'),
            digits == (if s@.len() >= 1 && s@[0] == '+' {
                s@.drop_first()
            } else {
                s@
            }),
            digits.len() == len - start,
            forall|m: int| 0 <= m < digits.len() ==> digits[m] == s@[m + start],
            all_digits(digits.take(j - start)),
            acc == dec_val(digits.take(j - start)),
        decreases len - j,
    {
        let c = s.get_char(j);
        let v = c as u32;
        if v < 48 || v > 57 {
            proof {
                assert(!is_digit(digits[j - start]));
            }
            return None;
        }
        let dv = (v - 48) as u64;
        proof {
            assert(digits.take(j - start + 1).drop_last() =~= digits.take(j - start));
            assert(dec_val(digits.take(j - start + 1)) == acc * 10 + dv);
        }
        if acc > (0xffff_ffff_ffff_ffff - dv) / 10 {
            proof {
                assert(acc * 10 + dv > u64::MAX);
                if all_digits(digits) {
                    assert(all_digits(digits.take(j - start + 1)));
                    lemma_dec_val_prefix_le(digits, j - start + 1);
                }
            }
            return None;
        }
        acc = acc * 10 + dv;
        j = j + 1;
    }
    proof {
        assert(digits.take(len - start) =~= digits);
    }
    Some(acc)
}

/// Whether two strings hold the same characters.
pub fn str_eq(a: &str, b: &str) -> (r: bool)
    ensures
        r == (a@ == b@),
{
    let sa = String::from_str(a);
    let sb = String::from_str(b);
    sa == sb
}

/// Splitting on any character of `seps`: the pieces between separators, in
/// order, empty pieces included. An empty string is one empty piece.
pub open spec fn split_by(s: Seq<char>, seps: Seq<char>) -> Seq<Seq<char>>
    decreases s.len(),
{
    if s.len() == 0 {
        seq![Seq::<char>::empty()]
    } else if seps.contains(s[0]) {
        seq![Seq::<char>::empty()] + split_by(s.drop_first(), seps)
    } else {
        let r = split_by(s.drop_first(), seps);
        seq![seq![s[0]] + r[0]] + r.drop_first()
    }
}

/// A string without separators is one piece.
proof fn lemma_split_by_no_sep(s: Seq<char>, seps: Seq<char>)
    requires
        forall|i: int| 0 <= i < s.len() ==> !seps.contains(#[trigger] s[i]),
    ensures
        split_by(s, seps) == seq![s],
    decreases s.len(),
{
    if s.len() == 0 {
        assert(s =~= Seq::<char>::empty());
    } else {
        lemma_split_by_no_sep(s.drop_first(), seps);
        let r = split_by(s.drop_first(), seps);
        assert(seq![s[0]] + r[0] =~= s);
        assert(r.drop_first() =~= Seq::<Seq<char>>::empty());
        assert(seq![seq![s[0]] + r[0]] + r.drop_first() =~= seq![s]);
    }
}

/// Splitting at the first separator: the head piece, then the split of the
/// rest.
proof fn lemma_split_by_at_sep(s: Seq<char>, seps: Seq<char>, k: int)
    requires
        0 <= k < s.len(),
        seps.contains(s[k]),
        forall|i: int| 0 <= i < k ==> !seps.contains(#[trigger] s[i]),
    ensures
        split_by(s, seps) == seq![s.take(k)] + split_by(s.skip(k + 1), seps),
    decreases k,
{
    if k == 0 {
        assert(s.take(0) =~= Seq::<char>::empty());
        assert(s.skip(1) =~= s.drop_first());
        assert(split_by(s, seps) =~= seq![s.take(0)] + split_by(s.skip(1), seps));
    } else {
        let tail = s.drop_first();
        assert(tail[k - 1] == s[k]);
        assert(forall|i: int| 0 <= i < k - 1 ==> !seps.contains(#[trigger] tail[i]));
        lemma_split_by_at_sep(tail, seps, k - 1);
        let r = split_by(tail, seps);
        assert(r == seq![tail.take(k - 1)] + split_by(tail.skip(k), seps));
        assert(seq![s[0]] + r[0] =~= s.take(k));
        assert(r.drop_first() =~= split_by(tail.skip(k), seps));
        assert(tail.skip(k) =~= s.skip(k + 1));
        assert(split_by(s, seps) =~= seq![s.take(k)] + split_by(s.skip(k + 1), seps));
    }
}

/// Whether `c` is one of the characters in `seps`.
fn char_in(seps: &[char], c: char) -> (r: bool)
    ensures
        r == seps@.contains(c),
{
    let n = seps.len();
    let mut i: usize = 0;
    while i < n
        invariant
            i <= n == seps@.len(),
            forall|m: int| 0 <= m < i ==> seps@[m] != c,
        decreases n - i,
    {
        if seps[i] == c {
            return true;
        }
        i = i + 1;
    }
    false
}

/// Splits `s` on any character of `seps`, keeping empty pieces, as
/// `str::split` with a slice of characters does.
pub fn split_chars<'a>(s: &'a str, seps: &[char]) -> (r: Vec<&'a str>)
    ensures
        r.deep_view() == split_by(s@, seps@),
{
    let len = s.unicode_len();
    let mut out: Vec<&'a str> = Vec::new();
    let mut piece_start: usize = 0;
    let mut j: usize = 0;
    proof {
        assert(s@.skip(0) =~= s@);
        assert(out.deep_view() =~= Seq::<Seq<char>>::empty());
        assert(out.deep_view() + split_by(s@, seps@) =~= split_by(s@, seps@));
    }
    while j < len
        invariant
            piece_start <= j <= len,
            len == s@.len(),
            forall|m: int| piece_start <= m < j ==> !seps@.contains(#[trigger] s@[m]),
            split_by(s@, seps@) == out.deep_view() + split_by(s@.skip(piece_start as int), seps@),
        decreases len - j,
    {
        let c = s.get_char(j);
        if char_in(seps, c) {
            let piece = s.substring_char(piece_start, j);
            proof {
                let rest = s@.skip(piece_start as int);
                assert(rest[j - piece_start] == s@[j as int]);
                assert(forall|i: int|
                    0 <= i < j - piece_start ==> !seps@.contains(#[trigger] rest[i]));
                lemma_split_by_at_sep(rest, seps@, j - piece_start);
                assert(rest.take(j - piece_start) =~= piece@);
                assert(rest.skip(j - piece_start + 1) =~= s@.skip(j + 1));
            }
            out.push(piece);
            proof {
                assert(out.deep_view() =~= out.deep_view().drop_last() + seq![piece@]);
                assert(split_by(s@, seps@) =~= out.deep_view() + split_by(
                    s@.skip(j + 1),
                    seps@,
                ));
            }
            piece_start = j + 1;
        }
        j = j + 1;
    }
    let piece = s.substring_char(piece_start, len);
    proof {
        let rest = s@.skip(piece_start as int);
        lemma_split_by_no_sep(rest, seps@);
        assert(rest =~= piece@);
        assert(split_by(s@, seps@) =~= out.deep_view() + seq![piece@]);
    }
    out.push(piece);
    proof {
        assert(out.deep_view() =~= out.deep_view().drop_last() + seq![piece@]);
        assert(out.deep_view() == split_by(s@, seps@));
    }
    out
}

} // verus!
