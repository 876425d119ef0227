use audio_demux::errors::{Error, Fault};
use audio_demux::isomp4::atoms::traf::TrafAtom;
use audio_demux::isomp4::atoms::{
    read_header, AtomHeader, AtomIterator, AtomType, TfhdAtom, TrunAtom,
};

fn atom(tag: &[u8; 4], payload: &[u8]) -> Vec<u8> {
    let mut a = Vec::new();
    a.extend_from_slice(&((8 + payload.len()) as u32).to_be_bytes());
    a.extend_from_slice(tag);
    a.extend_from_slice(payload);
    a
}

fn tfhd(track: u32) -> Vec<u8> {
    let mut p = vec![0, 0x02, 0x00, 0x20];
    p.extend_from_slice(&track.to_be_bytes());
    p.extend_from_slice(&[1, 2, 3, 4]);
    atom(b"tfhd", &p)
}

fn trun(samples: u32) -> Vec<u8> {
    let mut p = vec![1, 0x00, 0x02, 0x01];
    p.extend_from_slice(&samples.to_be_bytes());
    atom(b"trun", &p)
}

fn traf(children: &[Vec<u8>]) -> Vec<u8> {
    atom(b"traf", &children.concat())
}

fn top(bytes: &[u8]) -> AtomHeader {
    read_header(bytes, 0, bytes.len() as u64).unwrap()
}

#[test]
fn header_holds_type_size_and_position() {
    let mut b = vec![0xaa; 5];
    b.extend_from_slice(&atom(b"free", &[0; 4]));
    let h = read_header(&b, 5, b.len() as u64).unwrap();
    assert_eq!(h, AtomHeader { atype: AtomType::Other(*b"free"), atom_len: 12, pos: 5 });
    assert_eq!(top(&traf(&[])).atype, AtomType::TrackFragment);
    assert_eq!(top(&tfhd(1)).atype, AtomType::TrackFragmentHeader);
    assert_eq!(top(&trun(1)).atype, AtomType::TrackFragmentRun);
    assert_eq!(top(&atom(b"trak", &[])).atype, AtomType::Other(*b"trak"));
}

#[test]
fn header_faults() {
    let a = atom(b"free", &[0; 4]);
    assert_eq!(read_header(&a, 0, 11), Err(Error::DecodeError(Fault::AtomOverrun)));
    assert_eq!(read_header(&a, 0, 7), Err(Error::DecodeError(Fault::AtomOverrun)));
    assert_eq!(read_header(&a[..7], 0, 12), Err(Error::UnexpectedEof));
    let mut small = a.clone();
    small[3] = 7;
    assert_eq!(read_header(&small, 0, 12), Err(Error::DecodeError(Fault::AtomTooSmall)));
}

#[test]
fn iterator_steps_by_the_declared_size() {
    let t = traf(&[atom(b"free", &[0; 3]), tfhd(7), atom(b"skip", &[])]);
    let mut iter = AtomIterator::new(top(&t));
    let a = iter.next(&t).unwrap().unwrap();
    assert_eq!((a.pos, a.atom_len), (8, 11));
    let b = iter.next(&t).unwrap().unwrap();
    assert_eq!((b.pos, b.atom_len, b.atype), (19, 20, AtomType::TrackFragmentHeader));
    let c = iter.next(&t).unwrap().unwrap();
    assert_eq!((c.pos, c.atom_len), (39, 8));
    assert_eq!(iter.next(&t), Ok(None));
    assert_eq!(iter.next(&t), Ok(None));
}

#[test]
fn leaf_atoms_hold_their_leading_fields() {
    let h = tfhd(0x0102_0304);
    let a = TfhdAtom::read(&h, top(&h)).unwrap();
    assert_eq!(a.flags, 0x02_0020);
    assert_eq!(a.track_id, 0x0102_0304);
    assert_eq!(a.header(), top(&h));
    let r = trun(99);
    let b = TrunAtom::read(&r, top(&r)).unwrap();
    assert_eq!(b.flags, 0x00_0201);
    assert_eq!(b.sample_count, 99);
    let short = atom(b"tfhd", &[0; 7]);
    assert_eq!(
        TfhdAtom::read(&short, top(&short)),
        Err(Error::DecodeError(Fault::AtomTruncated))
    );
    let cut = AtomHeader { atype: AtomType::TrackFragmentRun, atom_len: 16, pos: 0 };
    assert_eq!(TrunAtom::read(&r[..15], cut), Err(Error::UnexpectedEof));
}

#[test]
fn traf_without_tfhd_is_a_decode_error() {
    let t = traf(&[trun(1), atom(b"free", &[])]);
    assert!(matches!(
        TrafAtom::read(&t, top(&t)),
        Err(Error::DecodeError(Fault::TrafHeaderCount))
    ));
    let e = traf(&[]);
    assert!(matches!(
        TrafAtom::read(&e, top(&e)),
        Err(Error::DecodeError(Fault::TrafHeaderCount))
    ));
}

#[test]
fn traf_with_tfhd_and_no_runs_has_an_empty_list() {
    let t = traf(&[tfhd(3)]);
    let a = TrafAtom::read(&t, top(&t)).unwrap();
    assert_eq!(a.header(), top(&t));
    assert_eq!(a.tfhd.track_id, 3);
    assert!(a.truns.is_empty());
}

#[test]
fn traf_keeps_every_run_in_order() {
    let t = traf(&[trun(1), atom(b"uuid", &[5; 20]), tfhd(3), trun(2), trun(3)]);
    let a = TrafAtom::read(&t, top(&t)).unwrap();
    assert_eq!(a.tfhd.track_id, 3);
    assert_eq!(*a.tfhd(), a.tfhd);
    assert_eq!(*a.truns(), a.truns);
    assert_eq!(a.truns().len(), 3);
    let counts: Vec<u32> = a.truns.iter().map(|r| r.sample_count).collect();
    assert_eq!(counts, vec![1, 2, 3]);
    assert_eq!(a.truns[1].header.pos, (8 + 16 + 28 + 20) as u64);
}

#[test]
fn traf_with_two_headers_is_a_decode_error() {
    let t = traf(&[tfhd(3), trun(1), tfhd(4)]);
    assert!(matches!(
        TrafAtom::read(&t, top(&t)),
        Err(Error::DecodeError(Fault::TrafHeaderCount))
    ));
}

#[test]
fn child_that_overruns_its_parent_is_a_decode_error() {
    let mut t = traf(&[tfhd(3), trun(1)]);
    // The run now declares more than what is left of the fragment.
    let at = 8 + 20;
    t[at..at + 4].copy_from_slice(&17u32.to_be_bytes());
    assert!(matches!(TrafAtom::read(&t, top(&t)), Err(Error::DecodeError(Fault::AtomOverrun))));
    // Less than a header is left behind the last child.
    let mut u = traf(&[tfhd(3)]);
    u.extend_from_slice(&[0; 3]);
    u[3] += 3;
    assert!(matches!(TrafAtom::read(&u, top(&u)), Err(Error::DecodeError(Fault::AtomOverrun))));
}

#[test]
fn traf_in_a_truncated_source_ends_unexpectedly() {
    let t = traf(&[tfhd(3), trun(1)]);
    let header = top(&t);
    assert!(matches!(TrafAtom::read(&t[..30], header), Err(Error::UnexpectedEof)));
    assert!(matches!(TrafAtom::read(&t[..40], header), Err(Error::UnexpectedEof)));
}

#[test]
fn fault_messages() {
    assert_eq!(Fault::TrafHeaderCount.message(), "isomp4: traf needs exactly one tfhd atom");
    assert_eq!(
        Error::DecodeError(Fault::AtomOverrun).message(),
        "isomp4: atom exceeds its parent"
    );
}
