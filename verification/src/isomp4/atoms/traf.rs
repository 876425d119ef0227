//! The track fragment atom.

use vstd::prelude::*;
use crate::errors::{Error, Fault};
use crate::isomp4::atoms::{
    spec_next, spec_read_tfhd, spec_read_trun, AtomHeader, AtomIterator, AtomType, TfhdAtom,
    TrunAtom,
};

verus! {

/// Track fragment atom.
#[derive(Debug)]
pub struct TrafAtom {
    /// Atom header.
    header: AtomHeader,
    /// Track fragment header.
    pub tfhd: TfhdAtom,
    /// Track fragment runs.
    pub truns: Vec<TrunAtom>,
}

/// A view of a track fragment.
pub struct TrafAtomView {
    pub header: AtomHeader,
    pub tfhd: TfhdAtom,
    pub truns: Seq<TrunAtom>,
}

/// What a walk over the children of a track fragment has gathered.
pub struct Children {
    /// The fragment header that was read last.
    pub tfhd: Option<TfhdAtom>,
    /// The number of fragment headers.
    pub tfhd_count: nat,
    /// The fragment runs, in the order of the source.
    pub truns: Seq<TrunAtom>,
}

impl View for TrafAtom {
    type V = TrafAtomView;

    closed spec fn view(&self) -> TrafAtomView {
        TrafAtomView { header: self.header, tfhd: self.tfhd, truns: self.truns@ }
    }
}

impl Children {
    /// Nothing gathered.
    pub open spec fn none() -> Children {
        Children { tfhd: None, tfhd_count: 0, truns: Seq::empty() }
    }
}

/// What the walk over the children from `pos` to `end` gathers, after
/// `found`. A fragment header and a fragment run are read; a child of
/// any other type is passed over. The walk goes from one child to the
/// next by the declared size of the child. The first error ends it.
pub open spec fn spec_walk(b: Seq<u8>, pos: int, end: int, found: Children) -> Result<
    Children,
    Error,
>
    decreases end - pos,
{
    match spec_next(b, pos, end) {
        Err(e) => Err(e),
        Ok(None) => Ok(found),
        Ok(Some(child)) => match child.atype {
            AtomType::TrackFragmentHeader => match spec_read_tfhd(b, child) {
                Err(e) => Err(e),
                Ok(tfhd) => spec_walk(
                    b,
                    pos + child.atom_len,
                    end,
                    Children {
                        tfhd: Some(tfhd),
                        tfhd_count: found.tfhd_count + 1,
                        truns: found.truns,
                    },
                ),
            },
            AtomType::TrackFragmentRun => match spec_read_trun(b, child) {
                Err(e) => Err(e),
                Ok(trun) => spec_walk(
                    b,
                    pos + child.atom_len,
                    end,
                    Children {
                        tfhd: found.tfhd,
                        tfhd_count: found.tfhd_count,
                        truns: found.truns.push(trun),
                    },
                ),
            },
            _ => spec_walk(b, pos + child.atom_len, end, found),
        },
    }
}

/// What reading the track fragment with the header `header` gives: the
/// first error of the walk over its children if there is one; else a
/// fault unless exactly one child is a fragment header; else the
/// fragment with that header and with every fragment run.
pub open spec fn spec_read_traf(b: Seq<u8>, header: AtomHeader) -> Result<TrafAtomView, Error> {
    match spec_walk(b, header.data_pos(), header.end(), Children::none()) {
        Err(e) => Err(e),
        Ok(found) => if found.tfhd_count == 1 && found.tfhd is Some {
            Ok(TrafAtomView { header, tfhd: found.tfhd->Some_0, truns: found.truns })
        } else {
            Err(Error::DecodeError(Fault::TrafHeaderCount))
        },
    }
}

/// A walk never loses the fragment header: once one is counted, one is held.
pub proof fn lemma_walk_keeps_header(b: Seq<u8>, pos: int, end: int, found: Children)
    requires
        found.tfhd_count > 0 ==> found.tfhd is Some,
    ensures
        spec_walk(b, pos, end, found) matches Ok(all) ==> {
            &&& all.tfhd_count >= found.tfhd_count
            &&& all.truns.len() >= found.truns.len()
            &&& all.tfhd_count > 0 ==> all.tfhd is Some
        },
    decreases end - pos,
{
    match spec_next(b, pos, end) {
        Ok(Some(child)) => {
            match child.atype {
                AtomType::TrackFragmentHeader => {
                    if let Ok(tfhd) = spec_read_tfhd(b, child) {
                        lemma_walk_keeps_header(
                            b,
                            pos + child.atom_len,
                            end,
                            Children {
                                tfhd: Some(tfhd),
                                tfhd_count: found.tfhd_count + 1,
                                truns: found.truns,
                            },
                        );
                    }
                },
                AtomType::TrackFragmentRun => {
                    if let Ok(trun) = spec_read_trun(b, child) {
                        lemma_walk_keeps_header(
                            b,
                            pos + child.atom_len,
                            end,
                            Children {
                                tfhd: found.tfhd,
                                tfhd_count: found.tfhd_count,
                                truns: found.truns.push(trun),
                            },
                        );
                    }
                },
                _ => {
                    lemma_walk_keeps_header(b, pos + child.atom_len, end, found);
                },
            }
        },
        _ => {},
    }
}

/// A track fragment needs its header. Where the walk over the children
/// comes to its end, a fragment without a fragment header is refused as
/// malformed, and so is one with more than one; a fragment with one
/// fragment header is read, with as many runs as it has children of
/// that type, be it none.
pub proof fn law_traf_needs_its_header(b: Seq<u8>, header: AtomHeader)
    ensures
        match spec_walk(b, header.data_pos(), header.end(), Children::none()) {
            Ok(found) => {
                &&& found.tfhd_count != 1 ==> spec_read_traf(b, header) == Err::<
                    TrafAtomView,
                    Error,
                >(Error::DecodeError(Fault::TrafHeaderCount))
                &&& found.tfhd_count == 1 ==> (spec_read_traf(b, header) matches Ok(traf)
                    && traf.truns == found.truns && Some(traf.tfhd) == found.tfhd && traf.header
                    == header)
            },
            Err(e) => spec_read_traf(b, header) == Err::<TrafAtomView, Error>(e),
        },
{
    lemma_walk_keeps_header(b, header.data_pos(), header.end(), Children::none());
}

impl TrafAtom {
    /// The header of the atom.
    pub fn header(&self) -> (header: AtomHeader)
        ensures
            header == self@.header,
    {
        self.header
    }

    /// The header of the track fragment.
    pub fn tfhd(&self) -> (tfhd: &TfhdAtom)
        ensures
            *tfhd == self@.tfhd,
    {
        &self.tfhd
    }

    /// The runs of the track fragment, in the order of the source.
    pub fn truns(&self) -> (truns: &Vec<TrunAtom>)
        ensures
            truns@ == self@.truns,
    {
        &self.truns
    }

    /// Reads the track fragment whose atom header is `header` from the
    /// source `bytes`. Its children are walked inside the range that
    /// the header declares.
    pub fn read(bytes: &[u8], header: AtomHeader) -> (res: Result<TrafAtom, Error>)
        requires
            header.wf(),
        ensures
            match spec_read_traf(bytes@, header) {
                Ok(view) => res matches Ok(traf) && traf@ == view,
                Err(e) => res matches Err(err) && err == e,
            },
    {
        let mut tfhd: Option<TfhdAtom> = None;
        let mut count: u8 = 0;
        let mut truns: Vec<TrunAtom> = Vec::new();
        let mut iter = AtomIterator::new(header);
        let ghost mut found = Children::none();
        loop
            invariant
                header.wf(),
                iter@.end == header.end(),
                found.tfhd == tfhd,
                found.truns == truns@,
                count == (if found.tfhd_count < 2 {
                    found.tfhd_count
                } else {
                    2
                }),
                found.tfhd_count > 0 ==> found.tfhd is Some,
                spec_walk(bytes@, header.data_pos(), header.end(), Children::none()) == spec_walk(
                    bytes@,
                    iter@.next_atom_pos as int,
                    iter@.end as int,
                    found,
                ),
            decreases iter@.end - iter@.next_atom_pos,
        {
            let child = match iter.next(bytes) {
                Ok(Some(child)) => child,
                Ok(None) => {
                    // Exactly one fragment header is mandatory.
                    if count != 1 {
                        return Err(Error::DecodeError(Fault::TrafHeaderCount));
                    }
                    return match tfhd {
                        Some(tfhd) => Ok(TrafAtom { header, tfhd, truns }),
                        None => Err(Error::DecodeError(Fault::TrafHeaderCount)),
                    };
                },
                Err(e) => {
                    return Err(e);
                },
            };
            match child.atype {
                AtomType::TrackFragmentHeader => {
                    let atom = match TfhdAtom::read(bytes, child) {
                        Ok(atom) => atom,
                        Err(e) => {
                            return Err(e);
                        },
                    };
                    tfhd = Some(atom);
                    if count < 2 {
                        count = count + 1;
                    }
                    proof {
                        found = Children {
                            tfhd: Some(atom),
                            tfhd_count: found.tfhd_count + 1,
                            truns: found.truns,
                        };
                    }
                },
                AtomType::TrackFragmentRun => {
                    let atom = match TrunAtom::read(bytes, child) {
                        Ok(atom) => atom,
                        Err(e) => {
                            return Err(e);
                        },
                    };
                    truns.push(atom);
                    proof {
                        found = Children {
                            tfhd: found.tfhd,
                            tfhd_count: found.tfhd_count,
                            truns: found.truns.push(atom),
                        };
                    }
                },
                _ => {},
            }
        }
    }
}

} // verus!
