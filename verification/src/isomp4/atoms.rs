//! Atom headers, the walk over the children of an atom, and the leaf atoms
//! of a track fragment.

use vstd::prelude::*;
use crate::bytes::{be_u32, read_be_u32};
use crate::errors::{Error, Fault};

pub mod traf;

verus! {

/// The number of bytes of an atom header: the size and the type.
pub const HEADER_SIZE: u64 = 8;

/// The type of an atom. The types that have a parser are named; any
/// other type keeps its four bytes.
#[derive(Clone, Copy, Debug, PartialEq, Eq)]
pub enum AtomType {
    /// `traf`: a track fragment.
    TrackFragment,
    /// `tfhd`: the header of a track fragment.
    TrackFragmentHeader,
    /// `trun`: a run of samples of a track fragment.
    TrackFragmentRun,
    /// A type without a parser.
    Other([u8; 4]),
}

/// The header of an atom.
#[derive(Clone, Copy, Debug, PartialEq, Eq)]
pub struct AtomHeader {
    /// The type of the atom.
    pub atype: AtomType,
    /// The declared size of the atom in bytes, its header included.
    pub atom_len: u64,
    /// The position of the first byte of the header in the source.
    pub pos: u64,
}

/// The type that the four bytes of a tag stand for.
pub open spec fn spec_atom_type(tag: Seq<u8>) -> AtomType {
    if tag == seq![0x74u8, 0x72, 0x61, 0x66] {
        AtomType::TrackFragment
    } else if tag == seq![0x74u8, 0x66, 0x68, 0x64] {
        AtomType::TrackFragmentHeader
    } else if tag == seq![0x74u8, 0x72, 0x75, 0x6e] {
        AtomType::TrackFragmentRun
    } else {
        AtomType::Other([tag[0], tag[1], tag[2], tag[3]])
    }
}

impl AtomType {
    /// The type that the tag `tag` stands for.
    pub fn from_tag(tag: [u8; 4]) -> (atype: AtomType)
        ensures
            atype == spec_atom_type(tag@),
    {
        if tag[0] == 0x74 && tag[1] == 0x72 && tag[2] == 0x61 && tag[3] == 0x66 {
            assert(tag@ =~= seq![0x74u8, 0x72, 0x61, 0x66]);
            AtomType::TrackFragment
        } else if tag[0] == 0x74 && tag[1] == 0x66 && tag[2] == 0x68 && tag[3] == 0x64 {
            assert(tag@ =~= seq![0x74u8, 0x66, 0x68, 0x64]);
            AtomType::TrackFragmentHeader
        } else if tag[0] == 0x74 && tag[1] == 0x72 && tag[2] == 0x75 && tag[3] == 0x6e {
            assert(tag@ =~= seq![0x74u8, 0x72, 0x75, 0x6e]);
            AtomType::TrackFragmentRun
        } else {
            AtomType::Other([tag[0], tag[1], tag[2], tag[3]])
        }
    }
}

impl AtomHeader {
    /// The position after the last byte of the atom.
    pub open spec fn end(&self) -> int {
        self.pos + self.atom_len
    }

    /// The position of the first byte of the payload.
    pub open spec fn data_pos(&self) -> int {
        self.pos + HEADER_SIZE
    }

    /// The number of bytes of the payload.
    pub open spec fn data_len(&self) -> int {
        self.atom_len - HEADER_SIZE
    }

    /// The invariant of a header: the atom is at least as long as its
    /// header, and its end is a position.
    pub open spec fn wf(&self) -> bool {
        &&& self.atom_len >= HEADER_SIZE
        &&& self.end() <= u64::MAX
    }
}

/// What reading the header of the atom at `pos` gives, where the atom
/// has to end at or before `end`. An atom whose header or whose declared
/// size reaches past `end` overruns; a declared size below the size of
/// the header is too small; and the source may end inside the header.
pub open spec fn spec_read_header(b: Seq<u8>, pos: int, end: int) -> Result<AtomHeader, Error> {
    if end - pos < HEADER_SIZE {
        Err(Error::DecodeError(Fault::AtomOverrun))
    } else if pos + HEADER_SIZE > b.len() {
        Err(Error::UnexpectedEof)
    } else if be_u32(b, pos) < HEADER_SIZE {
        Err(Error::DecodeError(Fault::AtomTooSmall))
    } else if be_u32(b, pos) > end - pos {
        Err(Error::DecodeError(Fault::AtomOverrun))
    } else {
        Ok(
            AtomHeader {
                atype: spec_atom_type(b.subrange(pos + 4, pos + 8)),
                atom_len: be_u32(b, pos) as u64,
                pos: pos as u64,
            },
        )
    }
}

/// Reads the header of the atom at `pos`, which has to end at or before `end`.
pub fn read_header(bytes: &[u8], pos: u64, end: u64) -> (res: Result<AtomHeader, Error>)
    ensures
        res == spec_read_header(bytes@, pos as int, end as int),
        res matches Ok(header) ==> header.wf() && header.pos == pos && header.end() <= end,
{
    if end < pos || end - pos < HEADER_SIZE {
        return Err(Error::DecodeError(Fault::AtomOverrun));
    }
    if pos + HEADER_SIZE > bytes.len() as u64 {
        return Err(Error::UnexpectedEof);
    }
    let at = pos as usize;
    let size = read_be_u32(bytes, at) as u64;
    if size < HEADER_SIZE {
        return Err(Error::DecodeError(Fault::AtomTooSmall));
    }
    if size > end - pos {
        return Err(Error::DecodeError(Fault::AtomOverrun));
    }
    let tag: [u8; 4] = [bytes[at + 4], bytes[at + 5], bytes[at + 6], bytes[at + 7]];
    assert(tag@ =~= bytes@.subrange(pos + 4, pos + 8));
    Ok(AtomHeader { atype: AtomType::from_tag(tag), atom_len: size, pos })
}

/// The walk over the children of an atom: a forward-only sequence of
/// headers, each inside what is left of the parent.
pub struct AtomIterator {
    next_atom_pos: u64,
    end: u64,
}

/// A view of the walk: where the next child starts and where the parent ends.
pub struct AtomIteratorView {
    pub next_atom_pos: u64,
    pub end: u64,
}

impl View for AtomIterator {
    type V = AtomIteratorView;

    closed spec fn view(&self) -> AtomIteratorView {
        AtomIteratorView { next_atom_pos: self.next_atom_pos, end: self.end }
    }
}

/// What the next step of a walk gives: no header where nothing is left
/// of the parent, else the header of the child that starts there.
pub open spec fn spec_next(b: Seq<u8>, pos: int, end: int) -> Result<Option<AtomHeader>, Error> {
    if pos >= end {
        Ok(None)
    } else {
        match spec_read_header(b, pos, end) {
            Ok(header) => Ok(Some(header)),
            Err(e) => Err(e),
        }
    }
}

impl AtomIterator {
    #[verifier::type_invariant]
    spec fn inside_parent(self) -> bool {
        self.next_atom_pos <= self.end
    }

    /// Starts the walk over the children of `container`.
    pub fn new(container: AtomHeader) -> (iter: AtomIterator)
        requires
            container.wf(),
        ensures
            iter@.next_atom_pos == container.data_pos(),
            iter@.end == container.end(),
    {
        AtomIterator {
            next_atom_pos: container.pos + HEADER_SIZE,
            end: container.pos + container.atom_len,
        }
    }

    /// Steps to the next child. The walk moves past the whole child, by
    /// its declared size, whatever is read of its payload; after an
    /// error or at the end it stays where it is.
    pub fn next(&mut self, bytes: &[u8]) -> (res: Result<Option<AtomHeader>, Error>)
        ensures
            old(self)@.next_atom_pos <= old(self)@.end,
            res == spec_next(bytes@, old(self)@.next_atom_pos as int, old(self)@.end as int),
            final(self)@.end == old(self)@.end,
            final(self)@.next_atom_pos <= final(self)@.end,
            match res {
                Ok(Some(header)) => header.wf() && header.pos == old(self)@.next_atom_pos
                    && final(self)@.next_atom_pos == header.end(),
                _ => final(self)@.next_atom_pos == old(self)@.next_atom_pos,
            },
    {
        proof {
            use_type_invariant(&*self);
        }
        if self.next_atom_pos >= self.end {
            return Ok(None);
        }
        let header = match read_header(bytes, self.next_atom_pos, self.end) {
            Ok(header) => header,
            Err(e) => {
                return Err(e);
            },
        };
        self.next_atom_pos = self.next_atom_pos + header.atom_len;
        Ok(Some(header))
    }
}

/// The header of a track fragment: the track that the fragment belongs to.
#[derive(Clone, Copy, Debug, PartialEq, Eq)]
pub struct TfhdAtom {
    /// The header of the atom.
    pub header: AtomHeader,
    /// The 24 flag bits of the atom.
    pub flags: u32,
    /// The number of the track.
    pub track_id: u32,
}

/// A run of samples of a track fragment.
#[derive(Clone, Copy, Debug, PartialEq, Eq)]
pub struct TrunAtom {
    /// The header of the atom.
    pub header: AtomHeader,
    /// The 24 flag bits of the atom.
    pub flags: u32,
    /// The number of samples in the run.
    pub sample_count: u32,
}

/// The 24 flag bits in the four bytes at `at`, of which the first is the version.
pub open spec fn flags_at(b: Seq<u8>, at: int) -> u32 {
    (0x1_0000 * b[at + 1] + 0x100 * b[at + 2] + b[at + 3]) as u32
}

/// Why the two words that lead the payload of a leaf atom cannot be
/// read, if they cannot: the atom is too short for them, or the source
/// ends before them.
pub open spec fn leaf_fault(b: Seq<u8>, header: AtomHeader) -> Option<Error> {
    if header.data_len() < 8 {
        Some(Error::DecodeError(Fault::AtomTruncated))
    } else if header.data_pos() + 8 > b.len() {
        Some(Error::UnexpectedEof)
    } else {
        None
    }
}

/// What reading a fragment header gives.
pub open spec fn spec_read_tfhd(b: Seq<u8>, header: AtomHeader) -> Result<TfhdAtom, Error> {
    match leaf_fault(b, header) {
        Some(e) => Err(e),
        None => Ok(
            TfhdAtom {
                header,
                flags: flags_at(b, header.data_pos()),
                track_id: be_u32(b, header.data_pos() + 4) as u32,
            },
        ),
    }
}

/// What reading a fragment run gives.
pub open spec fn spec_read_trun(b: Seq<u8>, header: AtomHeader) -> Result<TrunAtom, Error> {
    match leaf_fault(b, header) {
        Some(e) => Err(e),
        None => Ok(
            TrunAtom {
                header,
                flags: flags_at(b, header.data_pos()),
                sample_count: be_u32(b, header.data_pos() + 4) as u32,
            },
        ),
    }
}

/// Reads the two words that lead the payload of a leaf atom: the flags
/// and the word after them.
fn read_leaf(bytes: &[u8], header: AtomHeader) -> (res: Result<(u32, u32), Error>)
    requires
        header.wf(),
    ensures
        match leaf_fault(bytes@, header) {
            Some(e) => res == Err::<(u32, u32), Error>(e),
            None => res == Ok::<(u32, u32), Error>(
                (
                    flags_at(bytes@, header.data_pos()),
                    be_u32(bytes@, header.data_pos() + 4) as u32,
                ),
            ),
        },
{
    if header.atom_len - HEADER_SIZE < 8 {
        return Err(Error::DecodeError(Fault::AtomTruncated));
    }
    let data_pos = header.pos + HEADER_SIZE;
    if data_pos + 8 > bytes.len() as u64 {
        return Err(Error::UnexpectedEof);
    }
    let at = data_pos as usize;
    let b1: u32 = bytes[at + 1] as u32;
    let b2: u32 = bytes[at + 2] as u32;
    let b3: u32 = bytes[at + 3] as u32;
    let flags: u32 = 0x1_0000 * b1 + 0x100 * b2 + b3;
    let word = read_be_u32(bytes, at + 4);
    Ok((flags, word))
}

impl TfhdAtom {
    /// The header of the atom.
    pub fn header(&self) -> (header: AtomHeader)
        ensures
            header == self.header,
    {
        self.header
    }

    /// Reads the fragment header whose atom header is `header`.
    pub fn read(bytes: &[u8], header: AtomHeader) -> (res: Result<TfhdAtom, Error>)
        requires
            header.wf(),
        ensures
            res == spec_read_tfhd(bytes@, header),
    {
        match read_leaf(bytes, header) {
            Ok((flags, track_id)) => Ok(TfhdAtom { header, flags, track_id }),
            Err(e) => Err(e),
        }
    }
}

impl TrunAtom {
    /// The header of the atom.
    pub fn header(&self) -> (header: AtomHeader)
        ensures
            header == self.header,
    {
        self.header
    }

    /// Reads the fragment run whose atom header is `header`.
    pub fn read(bytes: &[u8], header: AtomHeader) -> (res: Result<TrunAtom, Error>)
        requires
            header.wf(),
        ensures
            res == spec_read_trun(bytes@, header),
    {
        match read_leaf(bytes, header) {
            Ok((flags, sample_count)) => Ok(TrunAtom { header, flags, sample_count }),
            Err(e) => Err(e),
        }
    }
}

} // verus!
