//! Reading of RIFX chunk containers and decoding of the `sndH` sound-header
//! chunks found in them.

pub mod bytes;
pub mod tags;
pub mod errors;
pub mod sound;
pub mod policy;
pub mod walker;
pub mod walk;
