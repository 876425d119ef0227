//! Demultiplexing of audio containers into timestamped packets.
//!
//! Three container dialects are covered: a block stream with a packed
//! bitfield header (WavPack), a flat chunk list (AIFF) and a nested atom
//! tree (ISO base media). Every dialect is decoded from bytes held in
//! memory, and every function comes with a contract that says what it
//! returns on each input.

pub mod errors;
pub mod bytes;
pub mod wavpack;
pub mod audio;
pub mod codecs;
pub mod formats;
pub mod isomp4;
pub mod aiff;
