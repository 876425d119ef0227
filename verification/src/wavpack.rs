//! The block dialect: a stream of blocks, each led by a fixed 32-byte header.

pub mod header;
pub mod reader;
pub mod codec;
