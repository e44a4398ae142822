//! A whole walk over a file held in memory.

use vstd::prelude::*;
use crate::bytes::{
    fits, read_exact, read_tag, read_u32, skip, tag_at, u32_at, Endianness, UnexpectedEnd,
};
use crate::policy::{disposition_of, Disposition, FilterConfig};
use crate::sound::{decode_spec, decode_sound_header, SoundHeaderDecode};
use crate::walker::{
    endianness_for_magic, endianness_of, padded, swaps_tags, tags_swapped, ChunkRecord, FileHeader,
    WalkError, Walker, CHUNK_HEADER_LEN,
};

verus! {

/// One chunk met by a walk, with its body if it was read and the decoded sound
/// header if it was decoded.
pub struct ChunkVisit {
    pub record: ChunkRecord,
    pub disposition: Disposition,
    pub body: Option<Vec<u8>>,
    pub sound: Option<SoundHeaderDecode>,
}

/// A completed walk: the file header, every chunk in order, and the offset at
/// which the walk stopped.
pub struct Walk {
    pub header: FileHeader,
    pub chunks: Vec<ChunkVisit>,
    pub final_offset: u64,
}

/// The failure of a read of `wanted` bytes at `offset`.
pub open spec fn end_error(offset: int, wanted: int) -> WalkError {
    WalkError::Io(UnexpectedEnd { offset: offset as u64, wanted: wanted as u64 })
}

/// The file header at the start of `data`.
pub open spec fn header_spec(data: Seq<u8>) -> Result<FileHeader, WalkError> {
    if !fits(data, 0, 4) {
        Err(end_error(0, 4))
    } else {
        let magic = tag_at(data, 0, false);
        match endianness_of(magic) {
            None => Err(WalkError::UnsupportedFormat { magic }),
            Some(e) => if !fits(data, 4, 4) {
                Err(end_error(4, 4))
            } else if !fits(data, 8, 4) {
                Err(end_error(8, 4))
            } else {
                Ok(
                    FileHeader {
                        magic,
                        declared_size: u32_at(data, 4, e),
                        endianness: e,
                        kind: tag_at(data, 8, swaps_tags(e)),
                    },
                )
            },
        }
    }
}

/// The record of the chunk whose header is at `offset`, the `index`-th chunk.
pub open spec fn record_at(data: Seq<u8>, e: Endianness, offset: nat, index: nat) -> ChunkRecord {
    ChunkRecord {
        type_tag: tag_at(data, offset as int, swaps_tags(e)),
        declared_size: u32_at(data, offset as int + 4, e),
        start_offset: offset as u32,
        index: index as u32,
    }
}

/// `done` followed by what `rest` found, or the failure of `rest`.
pub open spec fn after(done: Seq<ChunkRecord>, rest: Result<(Seq<ChunkRecord>, nat), WalkError>) -> Result<(Seq<ChunkRecord>, nat), WalkError> {
    match rest {
        Ok((more, fin)) => Ok((done + more, fin)),
        Err(x) => Err(x),
    }
}

/// The chunks from `offset` on, the first of them the `index`-th, in a file of
/// byte order `e` and declared size `declared`, and the offset at which the walk
/// stops; or the first read that fails.
pub open spec fn chunks_from(data: Seq<u8>, e: Endianness, declared: u32, offset: nat, index: nat) -> Result<(Seq<ChunkRecord>, nat), WalkError>
    decreases (if offset < declared {
        declared - offset
    } else {
        0
    }),
{
    if offset >= declared {
        Ok((Seq::empty(), offset))
    } else if !fits(data, offset as int, 4) {
        Err(end_error(offset as int, 4))
    } else if !fits(data, offset as int + 4, 4) {
        Err(end_error(offset as int + 4, 4))
    } else {
        let size = u32_at(data, offset as int + 4, e);
        if !fits(data, offset as int + 8, padded(size) as int) {
            Err(end_error(offset as int + 8, padded(size) as int))
        } else {
            after(
                seq![record_at(data, e, offset, index)],
                chunks_from(data, e, declared, offset + 8 + padded(size), index + 1),
            )
        }
    }
}

/// The header, the chunks and the final offset of the walk over `data`; or the
/// first failure.
pub open spec fn walk_spec(data: Seq<u8>) -> Result<(FileHeader, Seq<ChunkRecord>, nat), WalkError> {
    match header_spec(data) {
        Err(x) => Err(x),
        Ok(h) => match chunks_from(data, h.endianness, h.declared_size, 12, 0) {
            Err(x) => Err(x),
            Ok((recs, fin)) => Ok((h, recs, fin)),
        },
    }
}

/// The padded body of the chunk `rec` in `data`.
pub open spec fn body_of(data: Seq<u8>, rec: ChunkRecord) -> Seq<u8> {
    data.subrange(rec.start_offset + 8, rec.start_offset + 8 + padded(rec.declared_size))
}

/// `v` is what the walk hands out for the chunk `rec` under `config`.
pub open spec fn visit_matches(v: ChunkVisit, data: Seq<u8>, config: &FilterConfig, rec: ChunkRecord) -> bool {
    let d = disposition_of(config, rec.type_tag, rec.index);
    &&& v.record == rec
    &&& v.disposition == d
    &&& if d.materialize {
        v.body matches Some(b) && b@ == body_of(data, rec)
    } else {
        v.body is None
    }
    &&& if d.decode {
        v.sound matches Some(s) && s@ == decode_spec(body_of(data, rec))
    } else {
        v.sound is None
    }
}

/// `r` is the result of walking `data` under `config`.
pub open spec fn walk_outcome(data: Seq<u8>, config: &FilterConfig, r: Result<Walk, WalkError>) -> bool {
    match walk_spec(data) {
        Err(x) => r == Err::<Walk, WalkError>(x),
        Ok((h, recs, fin)) => r matches Ok(w) && {
            &&& w.header == h
            &&& w.final_offset == fin
            &&& w.chunks@.len() == recs.len()
            &&& forall|i: int|
                0 <= i < recs.len() ==> visit_matches(#[trigger] w.chunks@[i], data, config, recs[i])
        },
    }
}

/// Reads the file header at the start of `data`.
pub fn read_file_header(data: &[u8]) -> (r: Result<FileHeader, WalkError>)
    ensures
        r == header_spec(data@),
{
    let magic = match read_tag(data, 0, false) {
        Ok(t) => t,
        Err(x) => return Err(WalkError::Io(x)),
    };
    let endianness = match endianness_for_magic(&magic) {
        Ok(e) => e,
        Err(x) => return Err(x),
    };
    let declared_size = match read_u32(data, 4, endianness) {
        Ok(n) => n,
        Err(x) => return Err(WalkError::Io(x)),
    };
    let kind = match read_tag(data, 8, tags_swapped(endianness)) {
        Ok(t) => t,
        Err(x) => return Err(WalkError::Io(x)),
    };
    Ok(FileHeader { magic, declared_size, endianness, kind })
}

/// Walks every chunk of the file `data`, reading the bodies that `config` asks
/// for and decoding the sound headers it asks for.
pub fn walk_bytes(data: &[u8], config: &FilterConfig) -> (r: Result<Walk, WalkError>)
    ensures
        walk_outcome(data@, config, r),
{
    let header = match read_file_header(data) {
        Ok(h) => h,
        Err(x) => return Err(x),
    };
    let e = header.endianness;
    let swap = tags_swapped(e);
    let mut walker = Walker::new(e, header.declared_size);
    let mut chunks: Vec<ChunkVisit> = Vec::new();
    let ghost mut recs: Seq<ChunkRecord> = Seq::empty();
    let ghost total = chunks_from(data@, e, header.declared_size, 12, 0);

    while walker.in_progress()
        invariant
            walker.wf(),
            walker.endianness == e,
            e == header.endianness,
            walker.declared_size == header.declared_size,
            swap == swaps_tags(e),
            header_spec(data@) == Ok::<FileHeader, WalkError>(header),
            total == chunks_from(data@, e, header.declared_size, 12, 0),
            total == after(
                recs,
                chunks_from(
                    data@,
                    e,
                    header.declared_size,
                    walker.offset as nat,
                    walker.index as nat,
                ),
            ),
            chunks@.len() == recs.len(),
            forall|i: int|
                0 <= i < recs.len() ==> visit_matches(#[trigger] chunks@[i], data@, config, recs[i]),
        decreases (if walker.offset < header.declared_size {
            header.declared_size - walker.offset
        } else {
            0
        }),
    {
        let start = walker.offset;
        let ghost index = walker.index;
        let type_tag = match read_tag(data, start, swap) {
            Ok(t) => t,
            Err(x) => return Err(WalkError::Io(x)),
        };
        let declared_size = match read_u32(data, start + 4, e) {
            Ok(n) => n,
            Err(x) => return Err(WalkError::Io(x)),
        };
        let step = walker.visit(type_tag, declared_size, config);
        let body_pos = start + CHUNK_HEADER_LEN;
        let ghost rec = record_at(data@, e, start as nat, index as nat);
        assert(step.record == rec);
        let visit = if step.disposition.materialize {
            let body = match read_exact(data, body_pos, step.padded_size) {
                Ok(b) => b,
                Err(x) => return Err(WalkError::Io(x)),
            };
            let sound = if step.disposition.decode {
                Some(decode_sound_header(body.as_slice()))
            } else {
                None
            };
            ChunkVisit { record: step.record, disposition: step.disposition, body: Some(body), sound }
        } else {
            match skip(data, body_pos, step.padded_size) {
                Ok(_) => {},
                Err(x) => return Err(WalkError::Io(x)),
            }
            ChunkVisit { record: step.record, disposition: step.disposition, body: None, sound: None }
        };
        assert(visit_matches(visit, data@, config, rec));
        chunks.push(visit);
        proof {
            let rest = chunks_from(
                data@,
                e,
                header.declared_size,
                walker.offset as nat,
                walker.index as nat,
            );
            match rest {
                Ok((more, fin)) => {
                    assert(recs + (seq![rec] + more) =~= recs.push(rec) + more);
                },
                Err(_) => {},
            }
            recs = recs.push(rec);
        }
    }
    proof {
        assert(recs + Seq::<ChunkRecord>::empty() =~= recs);
    }
    Ok(Walk { header, chunks, final_offset: walker.offset })
}

/// Bytes taken by the chunks `recs`: each one's 8-byte header and padded body.
pub open spec fn extent_sum(recs: Seq<ChunkRecord>) -> nat
    decreases recs.len(),
{
    if recs.len() == 0 {
        0
    } else {
        8 + padded(recs[0].declared_size) + extent_sum(recs.drop_first())
    }
}

/// The offset just past the chunk `rec`.
pub open spec fn end_of(rec: ChunkRecord) -> nat {
    (rec.start_offset + 8 + padded(rec.declared_size)) as nat
}

/// The records of the chunks of a walk.
pub open spec fn records_of(w: Walk) -> Seq<ChunkRecord> {
    w.chunks@.map_values(|v: ChunkVisit| v.record)
}

/// What a walk from `offset` with ordinal `index` finds, when it succeeds: the
/// chunks lie end to end from `offset`, each starts below the declared size,
/// their ordinals count up from `index`, and the walk stops at the end of the
/// last one, at or past the declared size.
proof fn lemma_chunks_from(data: Seq<u8>, e: Endianness, declared: u32, offset: nat, index: nat)
    requires
        12 + 8 * index <= offset,
    ensures
        chunks_from(data, e, declared, offset, index) matches Ok((recs, fin)) ==> {
            &&& fin == offset + extent_sum(recs)
            &&& fin >= declared
            &&& forall|k: int|
                0 <= k < recs.len() ==> (#[trigger] recs[k]).index == index + k
                    && recs[k].start_offset < declared
            &&& recs.len() > 0 ==> recs[0].start_offset == offset
            &&& forall|k: int|
                0 <= k < recs.len() - 1 ==> #[trigger] recs[k + 1].start_offset == end_of(recs[k])
            &&& recs.len() > 0 ==> fin == end_of(recs.last())
        },
    decreases (if offset < declared {
        declared - offset
    } else {
        0
    }),
{
    if offset < declared && fits(data, offset as int, 4) && fits(data, offset as int + 4, 4) {
        let size = u32_at(data, offset as int + 4, e);
        let next = offset + 8 + padded(size);
        if fits(data, offset as int + 8, padded(size) as int) {
            lemma_chunks_from(data, e, declared, next, index + 1);
            let rec = record_at(data, e, offset, index);
            match chunks_from(data, e, declared, next, index + 1) {
                Ok((more, fin)) => {
                    let recs = seq![rec] + more;
                    assert(recs.drop_first() =~= more);
                    assert forall|k: int| 0 <= k < recs.len() implies (#[trigger] recs[k]).index
                        == index + k && recs[k].start_offset < declared by {
                        if k > 0 {
                            assert(recs[k] == more[k - 1]);
                        }
                    }
                    assert forall|k: int| 0 <= k < recs.len() - 1 implies #[trigger] recs[k
                        + 1].start_offset == end_of(recs[k]) by {
                        assert(recs[k + 1] == more[k]);
                        if k > 0 {
                            assert(recs[k] == more[k - 1]);
                        }
                    }
                    if more.len() > 0 {
                        assert(recs.last() == more.last());
                    }
                },
                Err(_) => {},
            }
        }
    }
}

/// The records that a walk hands out are those of the walk's definition.
proof fn lemma_records_of(data: Seq<u8>, config: &FilterConfig, r: Result<Walk, WalkError>)
    requires
        walk_outcome(data, config, r),
    ensures
        walk_spec(data) matches Ok((h, recs, fin)) ==> (r matches Ok(w) && records_of(w) == recs),
{
    if let Ok((h, recs, fin)) = walk_spec(data) {
        if let Ok(w) = r {
            assert forall|i: int| 0 <= i < recs.len() implies records_of(w)[i] == recs[i] by {
                assert(visit_matches(w.chunks@[i], data, config, recs[i]));
            }
            assert(records_of(w) =~= recs);
        }
    }
}

/// A walk that succeeds stops at 12 plus the sum, over its chunks, of 8 and the
/// padded size; that offset is never below the declared size. The chunks lie
/// end to end from offset 12, each starting below the declared size. When the
/// declared size is at least 12 and no chunk runs past it, the walk stops exactly
/// at the declared size.
pub proof fn lemma_walk_extents(data: Seq<u8>, config: &FilterConfig, r: Result<Walk, WalkError>)
    requires
        walk_outcome(data, config, r),
    ensures
        r matches Ok(w) ==> {
            let recs = records_of(w);
            &&& w.final_offset == 12 + extent_sum(recs)
            &&& w.final_offset >= w.header.declared_size
            &&& recs.len() > 0 ==> recs[0].start_offset == 12
            &&& forall|k: int|
                0 <= k < recs.len() - 1 ==> #[trigger] recs[k + 1].start_offset == end_of(recs[k])
            &&& forall|k: int| 0 <= k < recs.len() ==> (#[trigger] recs[k]).start_offset < w.header.declared_size
            &&& (w.header.declared_size >= 12 && forall|k: int|
                0 <= k < recs.len() ==> end_of(#[trigger] recs[k]) <= w.header.declared_size)
                ==> w.final_offset == w.header.declared_size
        },
{
    lemma_records_of(data, config, r);
    if let Ok((h, recs, fin)) = walk_spec(data) {
        lemma_chunks_from(data, h.endianness, h.declared_size, 12, 0);
        if recs.len() > 0 {
            assert(end_of(recs[recs.len() - 1]) <= h.declared_size ==> fin <= h.declared_size);
        }
    }
}

/// Chunk ordinals count 0, 1, 2, ... with no gap or repeat, and the filter
/// configuration changes neither them nor any other part of the chunk records,
/// nor whether the walk succeeds.
pub proof fn lemma_indices_ignore_filters(
    data: Seq<u8>,
    c1: &FilterConfig,
    c2: &FilterConfig,
    r1: Result<Walk, WalkError>,
    r2: Result<Walk, WalkError>,
)
    requires
        walk_outcome(data, c1, r1),
        walk_outcome(data, c2, r2),
    ensures
        r1 is Ok <==> r2 is Ok,
        r1 matches Ok(w1) ==> forall|k: int|
            0 <= k < records_of(w1).len() ==> (#[trigger] records_of(w1)[k]).index == k,
        r1 matches Ok(w1) ==> (r2 matches Ok(w2) && records_of(w1) == records_of(w2)),
{
    lemma_records_of(data, c1, r1);
    lemma_records_of(data, c2, r2);
    if let Ok((h, recs, fin)) = walk_spec(data) {
        lemma_chunks_from(data, h.endianness, h.declared_size, 12, 0);
    }
}

} // verus!
