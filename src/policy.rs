//! What happens to each chunk: reported or silenced, dumped, decoded.

use vstd::prelude::*;
use crate::bytes::FourCC;
use crate::tags::{same_tag, sndh, sndh_spec};

verus! {

/// Which chunks the caller wants silenced, dumped or decoded.
pub struct FilterConfig {
    /// Types of the chunks that are not reported.
    pub quiet_types: Vec<FourCC>,
    /// Types of the chunks whose bodies are dumped.
    pub dump_types: Vec<FourCC>,
    /// Indices of the chunks whose bodies are dumped.
    pub dump_indices: Vec<u32>,
    /// Whether sound-header chunks are decoded.
    pub decode_sound_headers: bool,
}

/// The fate of one chunk.
#[derive(Clone, Copy, Debug, PartialEq, Eq, Structural)]
pub struct Disposition {
    /// The chunk is reported.
    pub narrate: bool,
    /// The body is read into memory (otherwise it is skipped).
    pub materialize: bool,
    /// The body goes to the extraction sink.
    pub dump: bool,
    /// The body goes to the sound-header decoder.
    pub decode: bool,
}

/// The disposition of a chunk of type `tag` at ordinal `index` under `config`.
pub open spec fn disposition_of(config: &FilterConfig, tag: FourCC, index: u32) -> Disposition {
    let dump = config.dump_types@.contains(tag) || config.dump_indices@.contains(index);
    let decode = config.decode_sound_headers && tag == sndh_spec();
    Disposition { narrate: !config.quiet_types@.contains(tag), materialize: dump || decode, dump, decode }
}

/// Whether `tags` holds `tag`.
pub fn has_tag(tags: &Vec<FourCC>, tag: &FourCC) -> (r: bool)
    ensures
        r == tags@.contains(*tag),
{
    let mut i: usize = 0;
    while i < tags.len()
        invariant
            i <= tags@.len(),
            forall|j: int| 0 <= j < i ==> tags@[j] != *tag,
        decreases tags@.len() - i,
    {
        if same_tag(&tags[i], tag) {
            return true;
        }
        i = i + 1;
    }
    false
}

/// Whether `indices` holds `index`.
pub fn has_index(indices: &Vec<u32>, index: u32) -> (r: bool)
    ensures
        r == indices@.contains(index),
{
    let mut i: usize = 0;
    while i < indices.len()
        invariant
            i <= indices@.len(),
            forall|j: int| 0 <= j < i ==> indices@[j] != index,
        decreases indices@.len() - i,
    {
        if indices[i] == index {
            return true;
        }
        i = i + 1;
    }
    false
}

/// Decides what happens to a chunk of type `tag` at ordinal `index`.
pub fn chunk_policy(config: &FilterConfig, tag: &FourCC, index: u32) -> (d: Disposition)
    ensures
        d == disposition_of(config, *tag, index),
{
    let narrate = !has_tag(&config.quiet_types, tag);
    let dump = has_tag(&config.dump_types, tag) || has_index(&config.dump_indices, index);
    let decode = config.decode_sound_headers && same_tag(tag, &sndh());
    Disposition { narrate, materialize: dump || decode, dump, decode }
}

} // verus!
