//! Little-endian reads and absolute-offset seeks over an in-memory byte
//! buffer, plus a null-terminated UTF-16LE string reader. This is the
//! primitive the structural parser consumes its input through.

use vstd::prelude::*;

verus! {

/// A structural read failed because a seek or read went past the end of the
/// buffer.
#[derive(Debug, PartialEq, Eq)]
pub enum ParseError {
    Truncated,
}

/// The 16-bit little-endian integer whose bytes sit at `i` and `i + 1`.
pub open spec fn le_u16(d: Seq<u8>, i: int) -> u16
    recommends
        0 <= i,
        i + 2 <= d.len(),
{
    (d[i] + d[i + 1] * 0x100) as u16
}

/// The 32-bit little-endian integer whose bytes start at `i`.
pub open spec fn le_u32(d: Seq<u8>, i: int) -> u32
    recommends
        0 <= i,
        i + 4 <= d.len(),
{
    (d[i] + d[i + 1] * 0x100 + d[i + 2] * 0x10000 + d[i + 3] * 0x1000000) as u32
}

/// The 64-bit little-endian integer whose bytes start at `i`.
pub open spec fn le_u64(d: Seq<u8>, i: int) -> u64
    recommends
        0 <= i,
        i + 8 <= d.len(),
{
    (d[i] + d[i + 1] * 0x100 + d[i + 2] * 0x10000 + d[i + 3] * 0x1000000 + d[i + 4]
        * 0x100000000 + d[i + 5] * 0x10000000000 + d[i + 6] * 0x1000000000000 + d[i + 7]
        * 0x100000000000000) as u64
}

/// The signed value with the same bit pattern as `x`.
pub open spec fn as_i8(x: u8) -> i8 {
    if x < 0x80 {
        x as i8
    } else {
        (x - 0x100) as i8
    }
}

/// The signed value with the same bit pattern as `x`.
pub open spec fn as_i16(x: u16) -> i16 {
    if x < 0x8000 {
        x as i16
    } else {
        (x - 0x10000) as i16
    }
}

/// The signed value with the same bit pattern as `x`.
pub open spec fn as_i32(x: u32) -> i32 {
    if x < 0x80000000 {
        x as i32
    } else {
        (x - 0x100000000) as i32
    }
}

/// The signed value with the same bit pattern as `x`.
pub open spec fn as_i64(x: u64) -> i64 {
    if x < 0x8000000000000000 {
        x as i64
    } else {
        (x - 0x10000000000000000) as i64
    }
}

pub fn i8_from_bits(x: u8) -> (r: i8)
    ensures
        r == as_i8(x),
{
    if x < 0x80 {
        x as i8
    } else {
        -((0xff - x) as i8) - 1
    }
}

pub fn i16_from_bits(x: u16) -> (r: i16)
    ensures
        r == as_i16(x),
{
    if x < 0x8000 {
        x as i16
    } else {
        -((0xffff - x) as i16) - 1
    }
}

pub fn i32_from_bits(x: u32) -> (r: i32)
    ensures
        r == as_i32(x),
{
    if x < 0x80000000 {
        x as i32
    } else {
        -((0xffffffff - x) as i32) - 1
    }
}

pub fn i64_from_bits(x: u64) -> (r: i64)
    ensures
        r == as_i64(x),
{
    if x < 0x8000000000000000 {
        x as i64
    } else {
        -((0xffffffffffffffff - x) as i64) - 1
    }
}

pub fn le_u16_at(data: &[u8], pos: usize) -> (r: u16)
    requires
        pos + 2 <= data@.len(),
    ensures
        r == le_u16(data@, pos as int),
{
    let b0 = data[pos] as u16;
    let b1 = data[pos + 1] as u16;
    b0 + b1 * 0x100
}

pub fn le_u32_at(data: &[u8], pos: usize) -> (r: u32)
    requires
        pos + 4 <= data@.len(),
    ensures
        r == le_u32(data@, pos as int),
{
    let b0 = data[pos] as u32;
    let b1 = data[pos + 1] as u32;
    let b2 = data[pos + 2] as u32;
    let b3 = data[pos + 3] as u32;
    b0 + b1 * 0x100 + b2 * 0x10000 + b3 * 0x1000000
}

pub fn le_u64_at(data: &[u8], pos: usize) -> (r: u64)
    requires
        pos + 8 <= data@.len(),
    ensures
        r == le_u64(data@, pos as int),
{
    let b0 = data[pos] as u64;
    let b1 = data[pos + 1] as u64;
    let b2 = data[pos + 2] as u64;
    let b3 = data[pos + 3] as u64;
    let b4 = data[pos + 4] as u64;
    let b5 = data[pos + 5] as u64;
    let b6 = data[pos + 6] as u64;
    let b7 = data[pos + 7] as u64;
    b0 + b1 * 0x100 + b2 * 0x10000 + b3 * 0x1000000 + b4 * 0x100000000 + b5 * 0x10000000000 + b6
        * 0x1000000000000 + b7 * 0x100000000000000
}

/// Whether the UTF-16 code-unit sequence starting at `i` reaches a null
/// terminator before the end of the buffer.
pub open spec fn wcstr_terminated(d: Seq<u8>, i: int) -> bool
    decreases d.len() - i,
{
    if 0 <= i && i + 2 <= d.len() {
        le_u16(d, i) == 0 || wcstr_terminated(d, i + 2)
    } else {
        false
    }
}

/// The UTF-16 code units starting at `i`, up to (excluding) the null
/// terminator.
pub open spec fn wcstr_units(d: Seq<u8>, i: int) -> Seq<u16>
    decreases d.len() - i,
{
    if 0 <= i && i + 2 <= d.len() {
        if le_u16(d, i) == 0 {
            Seq::empty()
        } else {
            seq![le_u16(d, i)] + wcstr_units(d, i + 2)
        }
    } else {
        Seq::empty()
    }
}

/// The string that lossy UTF-16 decoding yields for the given code units:
/// unpaired surrogates become replacement characters, all else decodes
/// exactly.
pub uninterp spec fn utf16_lossy_of(units: Seq<u16>) -> Seq<char>;

/// Relies on String::from_utf16_lossy: the result depends on the code units
/// alone.
#[verifier::external_body]
fn utf16_lossy(units: &[u16]) -> (r: String)
    ensures
        r@ == utf16_lossy_of(units@),
{
    String::from_utf16_lossy(units)
}

/// Little-endian reads at a movable position over a borrowed byte buffer.
pub struct BinaryCursor<'a> {
    data: &'a [u8],
    pos: usize,
}

impl<'a> BinaryCursor<'a> {
    /// The underlying buffer.
    pub closed spec fn sdata(&self) -> Seq<u8> {
        self.data@
    }

    /// The current read position (may sit past the end of the buffer; reads
    /// there fail).
    pub closed spec fn spos(&self) -> int {
        self.pos as int
    }

    pub fn new(data: &'a [u8]) -> (r: Self)
        ensures
            r.sdata() == data@,
            r.spos() == 0,
    {
        BinaryCursor { data, pos: 0 }
    }

    /// The current read position.
    pub fn pos(&self) -> (r: usize)
        ensures
            r == self.spos(),
    {
        self.pos
    }

    /// The length of the underlying buffer.
    pub fn len(&self) -> (r: usize)
        ensures
            r == self.sdata().len(),
    {
        self.data.len()
    }

    /// Absolute seek; never fails, a position past the end only makes later
    /// reads fail.
    pub fn seek(&mut self, pos: usize)
        ensures
            final(self).sdata() == old(self).sdata(),
            final(self).spos() == pos,
    {
        self.pos = pos;
    }

    pub fn read_u8(&mut self) -> (r: Result<u8, ParseError>)
        ensures
            final(self).sdata() == old(self).sdata(),
            r is Ok <==> old(self).spos() + 1 <= old(self).sdata().len(),
            r matches Ok(v) ==> v == old(self).sdata()[old(self).spos()] && final(self).spos()
                == old(self).spos() + 1,
            r is Err ==> final(self).spos() == old(self).spos(),
    {
        if self.pos < self.data.len() {
            let v = self.data[self.pos];
            self.pos = self.pos + 1;
            Ok(v)
        } else {
            Err(ParseError::Truncated)
        }
    }

    pub fn read_i8(&mut self) -> (r: Result<i8, ParseError>)
        ensures
            final(self).sdata() == old(self).sdata(),
            r is Ok <==> old(self).spos() + 1 <= old(self).sdata().len(),
            r matches Ok(v) ==> v == as_i8(old(self).sdata()[old(self).spos()]) && final(self).spos() == old(self).spos() + 1,
            r is Err ==> final(self).spos() == old(self).spos(),
    {
        match self.read_u8() {
            Ok(v) => Ok(i8_from_bits(v)),
            Err(e) => Err(e),
        }
    }

    pub fn read_u16(&mut self) -> (r: Result<u16, ParseError>)
        ensures
            final(self).sdata() == old(self).sdata(),
            r is Ok <==> old(self).spos() + 2 <= old(self).sdata().len(),
            r matches Ok(v) ==> v == le_u16(old(self).sdata(), old(self).spos()) && final(self).spos() == old(self).spos() + 2,
            r is Err ==> final(self).spos() == old(self).spos(),
    {
        if self.data.len() >= 2 && self.pos <= self.data.len() - 2 {
            let v = le_u16_at(self.data, self.pos);
            self.pos = self.pos + 2;
            Ok(v)
        } else {
            Err(ParseError::Truncated)
        }
    }

    pub fn read_i16(&mut self) -> (r: Result<i16, ParseError>)
        ensures
            final(self).sdata() == old(self).sdata(),
            r is Ok <==> old(self).spos() + 2 <= old(self).sdata().len(),
            r matches Ok(v) ==> v == as_i16(le_u16(old(self).sdata(), old(self).spos())) && final(self).spos() == old(self).spos() + 2,
            r is Err ==> final(self).spos() == old(self).spos(),
    {
        match self.read_u16() {
            Ok(v) => Ok(i16_from_bits(v)),
            Err(e) => Err(e),
        }
    }

    pub fn read_u32(&mut self) -> (r: Result<u32, ParseError>)
        ensures
            final(self).sdata() == old(self).sdata(),
            r is Ok <==> old(self).spos() + 4 <= old(self).sdata().len(),
            r matches Ok(v) ==> v == le_u32(old(self).sdata(), old(self).spos()) && final(self).spos() == old(self).spos() + 4,
            r is Err ==> final(self).spos() == old(self).spos(),
    {
        if self.data.len() >= 4 && self.pos <= self.data.len() - 4 {
            let v = le_u32_at(self.data, self.pos);
            self.pos = self.pos + 4;
            Ok(v)
        } else {
            Err(ParseError::Truncated)
        }
    }

    pub fn read_i32(&mut self) -> (r: Result<i32, ParseError>)
        ensures
            final(self).sdata() == old(self).sdata(),
            r is Ok <==> old(self).spos() + 4 <= old(self).sdata().len(),
            r matches Ok(v) ==> v == as_i32(le_u32(old(self).sdata(), old(self).spos())) && final(self).spos() == old(self).spos() + 4,
            r is Err ==> final(self).spos() == old(self).spos(),
    {
        match self.read_u32() {
            Ok(v) => Ok(i32_from_bits(v)),
            Err(e) => Err(e),
        }
    }

    pub fn read_u64(&mut self) -> (r: Result<u64, ParseError>)
        ensures
            final(self).sdata() == old(self).sdata(),
            r is Ok <==> old(self).spos() + 8 <= old(self).sdata().len(),
            r matches Ok(v) ==> v == le_u64(old(self).sdata(), old(self).spos()) && final(self).spos() == old(self).spos() + 8,
            r is Err ==> final(self).spos() == old(self).spos(),
    {
        if self.data.len() >= 8 && self.pos <= self.data.len() - 8 {
            let v = le_u64_at(self.data, self.pos);
            self.pos = self.pos + 8;
            Ok(v)
        } else {
            Err(ParseError::Truncated)
        }
    }

    pub fn read_i64(&mut self) -> (r: Result<i64, ParseError>)
        ensures
            final(self).sdata() == old(self).sdata(),
            r is Ok <==> old(self).spos() + 8 <= old(self).sdata().len(),
            r matches Ok(v) ==> v == as_i64(le_u64(old(self).sdata(), old(self).spos())) && final(self).spos() == old(self).spos() + 8,
            r is Err ==> final(self).spos() == old(self).spos(),
    {
        match self.read_u64() {
            Ok(v) => Ok(i64_from_bits(v)),
            Err(e) => Err(e),
        }
    }

    /// Reads 16-bit code units up to a null terminator and decodes them
    /// lossily; running off the end of the buffer before a terminator is a
    /// truncation error.
    pub fn read_wcstring(&mut self) -> (r: Result<String, ParseError>)
        ensures
            final(self).sdata() == old(self).sdata(),
            r is Ok <==> wcstr_terminated(old(self).sdata(), old(self).spos()),
            r matches Ok(s) ==> s@ == utf16_lossy_of(
                wcstr_units(old(self).sdata(), old(self).spos()),
            ) && final(self).spos() == old(self).spos() + 2 * wcstr_units(
                old(self).sdata(),
                old(self).spos(),
            ).len() + 2,
    {
        let ghost d = self.sdata();
        let ghost p0 = self.spos();
        let mut buffer: Vec<u16> = Vec::new();
        proof {
            assert(wcstr_units(d, p0) =~= buffer@ + wcstr_units(d, p0));
        }
        loop
            invariant_except_break
                d == old(self).sdata(),
                p0 == old(self).spos(),
                self.sdata() == d,
                self.spos() == p0 + 2 * buffer@.len(),
                wcstr_units(d, p0) == buffer@ + wcstr_units(d, self.spos()),
                wcstr_terminated(d, p0) <==> wcstr_terminated(d, self.spos()),
            ensures
                self.sdata() == d,
                wcstr_terminated(d, p0),
                buffer@ == wcstr_units(d, p0),
                self.spos() == p0 + 2 * wcstr_units(d, p0).len() + 2,
            decreases d.len() - self.spos(),
        {
            let ghost p = self.spos();
            match self.read_u16() {
                Ok(x) => {
                    if x == 0 {
                        proof {
                            assert(wcstr_terminated(d, p));
                            assert(wcstr_units(d, p) =~= Seq::empty());
                            assert(wcstr_units(d, p0) =~= buffer@);
                        }
                        break ;
                    }
                    buffer.push(x);
                    proof {
                        assert(wcstr_units(d, p) == seq![x] + wcstr_units(d, p + 2));
                        assert(wcstr_units(d, p0) =~= buffer@ + wcstr_units(d, p + 2));
                        assert(wcstr_terminated(d, p) <==> wcstr_terminated(d, p + 2));
                    }
                },
                Err(e) => {
                    proof {
                        assert(!wcstr_terminated(d, p));
                    }
                    return Err(e);
                },
            }
        }
        Ok(utf16_lossy(buffer.as_slice()))
    }
}

} // verus!
