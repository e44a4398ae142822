//! Walking the chunks of a RIFX container.
//!
//! The file starts with a 12-byte header: a magic tag that fixes the byte order
//! of the whole file, the declared size, and a kind tag. Chunks follow, each an
//! 8-byte header (type tag, size) and a body padded to an even length. The walk
//! goes on while the running offset is below the declared size.

use vstd::prelude::*;
use crate::bytes::{Endianness, FourCC, UnexpectedEnd};
use crate::policy::{chunk_policy, disposition_of, Disposition, FilterConfig};
use crate::tags::{rifx, rifx_spec, same_tag, xfir, xfir_spec};

verus! {

/// Length of the file header.
pub const FILE_HEADER_LEN: u64 = 12;

/// Length of a chunk header.
pub const CHUNK_HEADER_LEN: u64 = 8;

/// A bound on the running offset: one past a chunk that starts below 2^32 and
/// whose padded body is at most 2^32 bytes.
pub const MAX_OFFSET: u64 = 0x2_0000_0008;

/// The file header.
#[derive(Clone, Copy, Debug, PartialEq, Eq)]
pub struct FileHeader {
    pub magic: FourCC,
    pub declared_size: u32,
    pub endianness: Endianness,
    pub kind: FourCC,
}

/// One chunk as its header gives it, with where it starts and its ordinal.
#[derive(Clone, Copy, Debug, PartialEq, Eq)]
pub struct ChunkRecord {
    pub type_tag: FourCC,
    pub declared_size: u32,
    pub start_offset: u32,
    pub index: u32,
}

/// Why a walk failed.
#[derive(Clone, Copy, Debug, PartialEq, Eq)]
pub enum WalkError {
    /// The magic tag is neither `RIFX` nor `XFIR`.
    UnsupportedFormat { magic: FourCC },
    /// A read or a skip ran past the end of the data.
    Io(UnexpectedEnd),
}

/// The number of bytes that a body of `size` bytes occupies: the size rounded
/// up to an even number.
pub open spec fn padded(size: u32) -> nat {
    (size + size % 2) as nat
}

/// The bytes that a body of `size` bytes occupies.
pub fn padded_size(size: u32) -> (r: u64)
    ensures
        r == padded(size),
        r % 2 == 0,
        size % 2 == 1 ==> r == size + 1,
        size % 2 == 0 ==> r == size,
{
    size as u64 + (size as u64) % 2
}

/// The byte order that a magic tag announces, if it is one of the two known.
pub open spec fn endianness_of(magic: FourCC) -> Option<Endianness> {
    if magic == xfir_spec() {
        Some(Endianness::Little)
    } else if magic == rifx_spec() {
        Some(Endianness::Big)
    } else {
        None
    }
}

/// Whether tags are stored byte-reversed in a file of byte order `e`.
pub open spec fn swaps_tags(e: Endianness) -> bool {
    e == Endianness::Little
}

/// Tells the byte order of a file from its magic tag.
pub fn endianness_for_magic(magic: &FourCC) -> (r: Result<Endianness, WalkError>)
    ensures
        r == (match endianness_of(*magic) {
            Some(e) => Ok::<Endianness, WalkError>(e),
            None => Err(WalkError::UnsupportedFormat { magic: *magic }),
        }),
{
    if same_tag(magic, &xfir()) {
        Ok(Endianness::Little)
    } else if same_tag(magic, &rifx()) {
        Ok(Endianness::Big)
    } else {
        Err(WalkError::UnsupportedFormat { magic: *magic })
    }
}

/// Whether tags are stored byte-reversed in a file of byte order `e`.
pub fn tags_swapped(e: Endianness) -> (r: bool)
    ensures
        r == swaps_tags(e),
{
    match e {
        Endianness::Little => true,
        Endianness::Big => false,
    }
}

/// The chunk-by-chunk state of a walk: the byte order and declared size of the
/// file, the offset of the next chunk and its ordinal.
#[derive(Clone, Copy, Debug, PartialEq, Eq, Structural)]
pub struct Walker {
    pub endianness: Endianness,
    pub declared_size: u32,
    pub offset: u64,
    pub index: u32,
}

/// What the walker decided on one chunk.
#[derive(Clone, Copy, Debug, PartialEq, Eq)]
pub struct ChunkStep {
    pub record: ChunkRecord,
    /// The number of body bytes to read or skip.
    pub padded_size: u64,
    pub disposition: Disposition,
}

impl Walker {
    /// Every chunk took at least its 8-byte header, and the offset is bounded.
    pub open spec fn wf(&self) -> bool {
        &&& FILE_HEADER_LEN + CHUNK_HEADER_LEN * self.index <= self.offset
        &&& self.offset <= MAX_OFFSET
    }

    /// The walker right after the file header.
    pub fn new(endianness: Endianness, declared_size: u32) -> (w: Walker)
        ensures
            w == (Walker { endianness, declared_size, offset: FILE_HEADER_LEN, index: 0 }),
            w.wf(),
    {
        Walker { endianness, declared_size, offset: FILE_HEADER_LEN, index: 0 }
    }

    /// Whether another chunk header is due: the offset is below the declared size.
    pub fn in_progress(&self) -> (r: bool)
        ensures
            r == (self.offset < self.declared_size),
    {
        self.offset < self.declared_size as u64
    }

    /// Takes the header of the next chunk: records it, decides its disposition,
    /// and moves past its header and padded body. The ordinal goes up by one
    /// whatever the disposition.
    pub fn visit(&mut self, type_tag: FourCC, declared_size: u32, config: &FilterConfig) -> (step:
        ChunkStep)
        requires
            old(self).wf(),
            old(self).offset < old(self).declared_size,
        ensures
            final(self).wf(),
            step.record == (ChunkRecord {
                type_tag,
                declared_size,
                start_offset: old(self).offset as u32,
                index: old(self).index,
            }),
            step.padded_size == padded(declared_size),
            step.disposition == disposition_of(config, type_tag, old(self).index),
            *final(self) == (Walker {
                offset: (old(self).offset + CHUNK_HEADER_LEN + padded(declared_size)) as u64,
                index: (old(self).index + 1) as u32,
                ..*old(self)
            }),
    {
        let start = self.offset;
        let index = self.index;
        let record = ChunkRecord { type_tag, declared_size, start_offset: start as u32, index };
        let disposition = chunk_policy(config, &type_tag, index);
        let size = padded_size(declared_size);
        self.offset = start + CHUNK_HEADER_LEN + size;
        self.index = index + 1;
        ChunkStep { record, padded_size: size, disposition }
    }
}

} // verus!
