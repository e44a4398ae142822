//! Sequential reads of tags and 32-bit integers out of an in-memory file.

use vstd::prelude::*;

verus! {

/// A four-byte type tag ("FourCC"), as stored in the file.
pub type FourCC = [u8; 4];

/// Byte order of the structural fields of a container file.
#[derive(Clone, Copy, Debug, PartialEq, Eq, Structural)]
pub enum Endianness {
    Little,
    Big,
}

/// A read that ran past the end of the data: `wanted` bytes at `offset`.
#[derive(Clone, Copy, Debug, PartialEq, Eq, Structural)]
pub struct UnexpectedEnd {
    pub offset: u64,
    pub wanted: u64,
}

/// The value of four bytes, the first one most significant.
pub open spec fn be_value(b0: u8, b1: u8, b2: u8, b3: u8) -> int {
    b0 as int * 0x1000000 + b1 as int * 0x10000 + b2 as int * 0x100 + b3 as int
}

/// The 32-bit integer stored at `pos` in `s` in byte order `e`.
pub open spec fn u32_at(s: Seq<u8>, pos: int, e: Endianness) -> u32 {
    match e {
        Endianness::Big => be_value(s[pos], s[pos + 1], s[pos + 2], s[pos + 3]) as u32,
        Endianness::Little => be_value(s[pos + 3], s[pos + 2], s[pos + 1], s[pos]) as u32,
    }
}

/// The tag stored at `pos` in `s`, its four bytes reversed when `byteswap` holds.
pub open spec fn tag_at(s: Seq<u8>, pos: int, byteswap: bool) -> FourCC {
    if byteswap {
        [s[pos + 3], s[pos + 2], s[pos + 1], s[pos]]
    } else {
        [s[pos], s[pos + 1], s[pos + 2], s[pos + 3]]
    }
}

/// Whether the read of `n` bytes at `pos` stays within `s`.
pub open spec fn fits(s: Seq<u8>, pos: int, n: int) -> bool {
    pos + n <= s.len()
}

/// Four bytes as an unsigned integer, the first one most significant.
pub fn u32_from_be(b0: u8, b1: u8, b2: u8, b3: u8) -> (r: u32)
    ensures
        r == be_value(b0, b1, b2, b3),
{
    (b0 as u32) * 0x1000000 + (b1 as u32) * 0x10000 + (b2 as u32) * 0x100 + (b3 as u32)
}

/// Reads the 32-bit integer at `pos` in byte order `e`.
pub fn read_u32(data: &[u8], pos: u64, e: Endianness) -> (r: Result<u32, UnexpectedEnd>)
    ensures
        fits(data@, pos as int, 4) ==> r == Ok::<u32, UnexpectedEnd>(u32_at(data@, pos as int, e)),
        !fits(data@, pos as int, 4) ==> r == Err::<u32, UnexpectedEnd>(UnexpectedEnd { offset: pos, wanted: 4 }),
{
    if pos > data.len() as u64 || data.len() as u64 - pos < 4 {
        return Err(UnexpectedEnd { offset: pos, wanted: 4 });
    }
    let p = pos as usize;
    match e {
        Endianness::Big => Ok(u32_from_be(data[p], data[p + 1], data[p + 2], data[p + 3])),
        Endianness::Little => Ok(u32_from_be(data[p + 3], data[p + 2], data[p + 1], data[p])),
    }
}

/// Reads the tag at `pos`, reversing its bytes when `byteswap` holds.
pub fn read_tag(data: &[u8], pos: u64, byteswap: bool) -> (r: Result<FourCC, UnexpectedEnd>)
    ensures
        fits(data@, pos as int, 4) ==> r == Ok::<FourCC, UnexpectedEnd>(tag_at(data@, pos as int, byteswap)),
        !fits(data@, pos as int, 4) ==> r == Err::<FourCC, UnexpectedEnd>(UnexpectedEnd { offset: pos, wanted: 4 }),
{
    if pos > data.len() as u64 || data.len() as u64 - pos < 4 {
        return Err(UnexpectedEnd { offset: pos, wanted: 4 });
    }
    let p = pos as usize;
    if byteswap {
        Ok([data[p + 3], data[p + 2], data[p + 1], data[p]])
    } else {
        Ok([data[p], data[p + 1], data[p + 2], data[p + 3]])
    }
}

/// Copies the `n` bytes at `pos`.
pub fn read_exact(data: &[u8], pos: u64, n: u64) -> (r: Result<Vec<u8>, UnexpectedEnd>)
    ensures
        fits(data@, pos as int, n as int) ==> (r matches Ok(b) && b@ == data@.subrange(
            pos as int,
            pos + n,
        )),
        !fits(data@, pos as int, n as int) ==> r == Err::<Vec<u8>, UnexpectedEnd>(
            UnexpectedEnd { offset: pos, wanted: n },
        ),
{
    if pos > data.len() as u64 || data.len() as u64 - pos < n {
        return Err(UnexpectedEnd { offset: pos, wanted: n });
    }
    let start = pos as usize;
    let end = start + n as usize;
    let mut body: Vec<u8> = Vec::with_capacity(n as usize);
    let mut i: usize = start;
    while i < end
        invariant
            start <= i <= end,
            end <= data@.len(),
            body@ == data@.subrange(start as int, i as int),
        decreases end - i,
    {
        body.push(data[i]);
        i = i + 1;
        assert(body@ =~= data@.subrange(start as int, i as int));
    }
    Ok(body)
}

/// Moves past the `n` bytes at `pos` without copying them; returns the new position.
pub fn skip(data: &[u8], pos: u64, n: u64) -> (r: Result<u64, UnexpectedEnd>)
    ensures
        fits(data@, pos as int, n as int) ==> r == Ok::<u64, UnexpectedEnd>((pos + n) as u64),
        !fits(data@, pos as int, n as int) ==> r == Err::<u64, UnexpectedEnd>(
            UnexpectedEnd { offset: pos, wanted: n },
        ),
{
    if pos > data.len() as u64 || data.len() as u64 - pos < n {
        return Err(UnexpectedEnd { offset: pos, wanted: n });
    }
    Ok(pos + n)
}

} // verus!
