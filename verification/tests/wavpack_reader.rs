use audio_demux::audio::Layout;
use audio_demux::codecs::{CodecParameters, CodecType};
use audio_demux::errors::{Error, Feature, SeekErrorKind};
use audio_demux::formats::{DataBounds, PacketInfo, SeekedTo};
use audio_demux::wavpack::codec::WavPackDecoder;
use audio_demux::wavpack::header::decode_header;
use audio_demux::wavpack::reader::{
    build_track, stream_bounds, try_channel_count_to_mask, WavPackReader,
};

fn block_at(index: u64, total: u64, flags: u32, samples: u32, payload: usize) -> Vec<u8> {
    let mut b = Vec::new();
    b.extend_from_slice(b"wvpk");
    b.extend_from_slice(&((24 + payload) as u32).to_le_bytes());
    b.extend_from_slice(&0x402u16.to_le_bytes());
    b.push((index >> 32) as u8);
    b.push((total >> 32) as u8);
    b.extend_from_slice(&(total as u32).to_le_bytes());
    b.extend_from_slice(&(index as u32).to_le_bytes());
    b.extend_from_slice(&samples.to_le_bytes());
    b.extend_from_slice(&flags.to_le_bytes());
    b.extend_from_slice(&0u32.to_le_bytes());
    for i in 0..payload {
        b.push((i * 7) as u8);
    }
    b
}

#[test]
fn single_block_stream_gives_one_track_and_one_packet() {
    let source = block_at(0, 500, 0b01, 500, 68);
    let mut r = WavPackReader::try_new(source.clone()).unwrap();
    assert_eq!(r.tracks().len(), 1);
    let p = r.tracks()[0].codec_params;
    assert_eq!(r.tracks()[0].id, 0);
    assert_eq!(p.bits_per_sample, Some(16));
    assert_eq!(p.bits_per_coded_sample, Some(16));
    assert_eq!(p.codec, CodecType::WavPackPcmI16);
    assert_eq!(p.channels.unwrap().bits(), 0b11);
    assert_eq!(p.frames_per_block, Some(500));
    assert_eq!(p.max_frames_per_packet, Some(1152 * 500));
    assert_eq!(p.n_frames, Some(500));
    assert_eq!(p.sample_rate, None);
    assert_eq!(r.header(), decode_header(&source).unwrap());
    assert_eq!(r.pos(), 0);
    let packet = r.next_packet().unwrap();
    assert_eq!(packet.track_id, 0);
    assert_eq!(packet.ts, 0);
    assert_eq!(packet.dur, 500);
    assert_eq!(packet.data, source);
    assert_eq!(r.pos(), 100);
    assert_eq!(r.next_packet(), Err(Error::EndOfStream));
    assert_eq!(r.next_packet(), Err(Error::EndOfStream));
    assert_eq!(r.into_inner(), source);
}

#[test]
fn mono_dsd_block() {
    let h = decode_header(&block_at(0, 10, 0x8000_0004 | 0b10, 10, 0)).unwrap();
    let (track, info) = build_track(&h).unwrap();
    assert_eq!(track.codec_params.codec, CodecType::WavPackDsd);
    assert_eq!(track.codec_params.channels.unwrap().bits(), 0b1);
    assert_eq!(track.codec_params.bits_per_sample, Some(24));
    assert_eq!(info.block_size, 32);
    assert_eq!(info.frames_per_block, 10);
    assert_eq!(info.max_blocks_per_packet, 1152);
}

#[test]
fn total_is_absent_in_later_blocks_and_when_all_ones() {
    let later = decode_header(&block_at(1, 77, 1, 10, 0)).unwrap();
    assert_eq!(later.block_index, 1);
    assert_eq!(later.total_samples, None);
    assert_eq!(build_track(&later).unwrap().0.codec_params.n_frames, None);
    let high = decode_header(&block_at(0x01_0000_0000, 77, 1, 10, 0)).unwrap();
    assert_eq!(high.block_index, 0x01_0000_0000);
    assert_eq!(high.total_samples, None);
    let unknown = decode_header(&block_at(0, 0xff_ffff_ffff, 1, 10, 0)).unwrap();
    assert_eq!(unknown.total_samples, Some(0xff_ffff_ffff));
    assert_eq!(build_track(&unknown).unwrap().0.codec_params.n_frames, None);
    let long = decode_header(&block_at(0, 0x12_3456_789a, 1, 10, 0)).unwrap();
    assert_eq!(long.total_samples, Some(0x12_3456_789a));
    assert_eq!(build_track(&long).unwrap().0.codec_params.n_frames, Some(0x12_3456_789a));
}

#[test]
fn several_blocks_of_one_size() {
    let mut source = Vec::new();
    for i in 0..3u64 {
        source.extend_from_slice(&block_at(i * 20, 60, 1, 20, 8));
    }
    source.extend_from_slice(&[0; 5]);
    let mut r = WavPackReader::try_new(source.clone()).unwrap();
    let p = r.next_packet().unwrap();
    assert_eq!((p.ts, p.dur), (0, 60));
    assert_eq!(p.data, source[..120].to_vec());
    assert_eq!(r.next_packet(), Err(Error::EndOfStream));
    assert_eq!(r.seek(25), Ok(SeekedTo { track_id: 0, required_ts: 25, actual_ts: 20 }));
    let q = r.next_packet().unwrap();
    assert_eq!((q.ts, q.dur), (20, 40));
    assert_eq!(q.data, source[40..120].to_vec());
    assert_eq!(r.seek(60), Err(Error::SeekError(SeekErrorKind::OutOfRange)));
}

#[test]
fn open_reports_the_fault_of_the_header() {
    let good = block_at(0, 1, 1, 1, 0);
    let mut version = good.clone();
    version[8] = 0x03;
    assert!(matches!(
        WavPackReader::try_new(version),
        Err(Error::Unsupported(Feature::WavPackVersion))
    ));
    let mut marker = good.clone();
    marker[3] = b'K';
    assert!(matches!(
        WavPackReader::try_new(marker),
        Err(Error::Unsupported(Feature::WavPackMarker))
    ));
    assert!(matches!(WavPackReader::try_new(good[..31].to_vec()), Err(Error::UnexpectedEof)));
    assert!(matches!(WavPackReader::try_new(good[..9].to_vec()), Err(Error::UnexpectedEof)));
    assert!(matches!(WavPackReader::try_new(Vec::new()), Err(Error::UnexpectedEof)));
    // The marker is looked at before the rest is asked for.
    assert!(matches!(
        WavPackReader::try_new(b"RIFF".to_vec()),
        Err(Error::Unsupported(Feature::WavPackMarker))
    ));
    let mut both = good[..10].to_vec();
    both[8] = 0;
    assert!(matches!(
        WavPackReader::try_new(both),
        Err(Error::Unsupported(Feature::WavPackVersion))
    ));
}

#[test]
fn block_without_audio_gives_no_frames() {
    let source = block_at(0, 0, 1, 0, 4);
    let mut r = WavPackReader::try_new(source.clone()).unwrap();
    let p = r.next_packet().unwrap();
    assert_eq!((p.ts, p.dur), (0, 0));
    assert_eq!(p.data, source);
    assert_eq!(r.seek(0), Err(Error::SeekError(SeekErrorKind::OutOfRange)));
}

#[test]
fn reexported_channel_mask() {
    assert_eq!(try_channel_count_to_mask(3).unwrap().bits(), 0b111);
    assert_eq!(try_channel_count_to_mask(33), Err(Error::Unsupported(Feature::ChannelCount)));
}

#[test]
fn decoder_needs_frames_rate_and_channels() {
    let mut p = CodecParameters::new();
    assert_eq!(
        WavPackDecoder::try_new(&p),
        Err(Error::Unsupported(Feature::MaxFramesPerPacket))
    );
    p.max_frames_per_packet = Some(1152);
    assert_eq!(WavPackDecoder::try_new(&p), Err(Error::Unsupported(Feature::SampleRate)));
    p.sample_rate = Some(44100);
    assert_eq!(WavPackDecoder::try_new(&p), Err(Error::Unsupported(Feature::Channels)));
    p.channel_layout = Some(Layout::TwoPointOne);
    let d = WavPackDecoder::try_new(&p).unwrap();
    assert_eq!(d.signal_spec().rate, 44100);
    assert_eq!(d.signal_spec().channels.bits(), 0b1011);
    assert_eq!(d.capacity(), 1152);
    assert_eq!(*d.codec_params(), p);
    p.channels = Some(try_channel_count_to_mask(1).unwrap());
    let mut e = WavPackDecoder::try_new(&p).unwrap();
    assert_eq!(e.signal_spec().channels.bits(), 0b1);
    e.reset();
    assert_eq!(e.capacity(), 1152);
}

#[test]
fn decoder_codecs() {
    assert_eq!(
        WavPackDecoder::supported_codecs(),
        vec![
            CodecType::WavPackPcmFloat,
            CodecType::WavPackPcmI8,
            CodecType::WavPackPcmI16,
            CodecType::WavPackPcmI24,
            CodecType::WavPackPcmI32,
            CodecType::WavPackDsd,
        ]
    );
}

#[test]
fn layouts_have_their_masks() {
    assert_eq!(Layout::Mono.into_channels().bits(), 0x1);
    assert_eq!(Layout::Stereo.into_channels().bits(), 0x3);
    assert_eq!(Layout::TwoPointOne.into_channels().bits(), 0xb);
    assert_eq!(Layout::FivePointOne.into_channels().bits(), 0x3f);
}

#[test]
fn stream_with_too_many_frames_is_unsupported() {
    let info =
        PacketInfo { block_size: 8, frames_per_block: 0xffff_ffff, max_blocks_per_packet: 1152 };
    assert_eq!(stream_bounds(&info, 1 << 34), Ok(DataBounds { start: 0, end: 1 << 34 }));
    assert_eq!(stream_bounds(&info, 1 << 36), Err(Error::Unsupported(Feature::StreamLength)));
    assert_eq!(Feature::StreamLength.message(), "wavpack: stream too long for 64-bit timestamps");
}
