use audio_demux::errors::{Error, Fault, SeekErrorKind};
use audio_demux::formats::{
    DataBounds, Demuxer, PacketInfo, PacketPlan, SeekPlan, SeekedTo,
};

fn info(block_size: u64, frames_per_block: u64, max_blocks_per_packet: u64) -> PacketInfo {
    PacketInfo { block_size, frames_per_block, max_blocks_per_packet }
}

#[test]
fn frames_of_whole_blocks() {
    let i = info(4, 3, 10);
    assert_eq!(i.get_frames(0), 0);
    assert_eq!(i.get_frames(3), 0);
    assert_eq!(i.get_frames(4), 3);
    assert_eq!(i.get_frames(23), 15);
    assert_eq!(i.try_get_frames(23), Some(15));
    assert_eq!(info(0, 3, 10).try_get_frames(23), None);
    assert_eq!(info(1, u64::MAX, 10).try_get_frames(2), None);
    assert_eq!(info(1, u64::MAX, 10).try_get_frames(1), Some(u64::MAX));
}

#[test]
fn plan_takes_the_smaller_of_what_is_left_and_the_cap() {
    let i = info(4, 3, 10);
    let bounds = DataBounds { start: 100, end: 100 + 4 * 25 + 2 };
    assert_eq!(
        i.plan_packet(&bounds, 100),
        Ok(PacketPlan { start: 100, len: 40, ts: 0, dur: 30 })
    );
    assert_eq!(
        i.plan_packet(&bounds, 180),
        Ok(PacketPlan { start: 180, len: 20, ts: 60, dur: 15 })
    );
    assert_eq!(i.plan_packet(&bounds, 200), Err(Error::EndOfStream));
    assert_eq!(i.plan_packet(&bounds, 202), Err(Error::EndOfStream));
    assert_eq!(i.plan_packet(&bounds, 500), Err(Error::EndOfStream));
}

#[test]
fn zero_block_size_is_a_decode_error() {
    let i = info(0, 1, 10);
    let bounds = DataBounds { start: 0, end: 100 };
    assert_eq!(i.plan_packet(&bounds, 0), Err(Error::DecodeError(Fault::ZeroBlockSize)));
    assert_eq!(i.plan_seek(&bounds, 0), Err(Error::DecodeError(Fault::ZeroBlockSize)));
}

#[test]
fn seek_plan_goes_down_to_the_block() {
    let i = info(8, 5, 10);
    let bounds = DataBounds { start: 16, end: 16 + 8 * 4 };
    assert_eq!(i.plan_seek(&bounds, 0), Ok(SeekPlan { pos: 16, actual_ts: 0 }));
    assert_eq!(i.plan_seek(&bounds, 4), Ok(SeekPlan { pos: 16, actual_ts: 0 }));
    assert_eq!(i.plan_seek(&bounds, 5), Ok(SeekPlan { pos: 24, actual_ts: 5 }));
    assert_eq!(i.plan_seek(&bounds, 19), Ok(SeekPlan { pos: 40, actual_ts: 15 }));
    assert_eq!(i.plan_seek(&bounds, 20), Err(Error::SeekError(SeekErrorKind::OutOfRange)));
    assert_eq!(
        info(8, 0, 10).plan_seek(&bounds, 0),
        Err(Error::SeekError(SeekErrorKind::OutOfRange))
    );
}

#[test]
fn demuxer_hands_out_contiguous_packets() {
    let source: Vec<u8> = (0..60u8).collect();
    let bounds = DataBounds { start: 10, end: 57 };
    let mut d = Demuxer::new(source.clone(), 7, info(6, 2, 3), bounds);
    assert_eq!(d.pos(), 10);
    assert!(!d.is_exhausted());
    let mut pos = 10usize;
    let mut ts = 0;
    let mut total = 0;
    let expected = [(18usize, 6u64), (18, 6), (6, 2)];
    for (len, dur) in expected {
        let p = d.next_packet().unwrap();
        assert_eq!(p.track_id, 7);
        assert_eq!(p.ts, ts);
        assert_eq!(p.dur, dur);
        assert_eq!(p.data, source[pos..pos + len].to_vec());
        pos += len;
        ts += dur;
        total += dur;
        assert_eq!(d.pos(), pos as u64);
    }
    assert_eq!(total, d.packet_info().get_frames(47));
    assert_eq!(d.next_packet(), Err(Error::EndOfStream));
    assert!(d.is_exhausted());
    assert_eq!(d.pos(), 52);
    assert_eq!(d.next_packet(), Err(Error::EndOfStream));
    assert_eq!(d.data_bounds(), bounds);
    assert_eq!(d.into_inner(), source);
}

#[test]
fn demuxer_seeks_to_a_block_boundary() {
    let source: Vec<u8> = (0..60u8).collect();
    let bounds = DataBounds { start: 10, end: 57 };
    let mut d = Demuxer::new(source.clone(), 7, info(6, 2, 3), bounds);
    assert_eq!(d.seek(9), Ok(SeekedTo { track_id: 7, required_ts: 9, actual_ts: 8 }));
    assert_eq!(d.pos(), 34);
    let p = d.next_packet().unwrap();
    assert_eq!((p.ts, p.dur), (8, 6));
    assert_eq!(p.data, source[34..52].to_vec());
    assert_eq!(d.seek(14), Err(Error::SeekError(SeekErrorKind::OutOfRange)));
    assert_eq!(d.pos(), 52);
    assert_eq!(d.next_packet(), Err(Error::EndOfStream));
    assert_eq!(d.seek(13), Ok(SeekedTo { track_id: 7, required_ts: 13, actual_ts: 12 }));
    assert!(!d.is_exhausted());
    assert_eq!(d.next_packet().unwrap().data, source[46..52].to_vec());
}

#[test]
fn demuxer_with_bounds_behind_the_source_ends_unexpectedly() {
    let source: Vec<u8> = (0..20u8).collect();
    let bounds = DataBounds { start: 0, end: 40 };
    let mut d = Demuxer::new(source, 0, info(8, 1, 2), bounds);
    assert_eq!(d.next_packet().unwrap().dur, 2);
    assert_eq!(d.next_packet(), Err(Error::UnexpectedEof));
    assert_eq!(d.pos(), 16);
    assert!(!d.is_exhausted());
}

#[test]
fn demuxer_with_empty_bounds_ends_at_once() {
    let mut d = Demuxer::new(vec![1, 2, 3], 0, info(1, 1, 1), DataBounds { start: 3, end: 2 });
    assert_eq!(d.next_packet(), Err(Error::EndOfStream));
    assert_eq!(d.seek(0), Err(Error::SeekError(SeekErrorKind::OutOfRange)));
}
