//! The nested dialect: a tree of atoms, each with its size and a four-byte type.

pub mod atoms;
