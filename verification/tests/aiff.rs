use audio_demux::aiff::{
    build_track, read_directory, read_form_header, AiffReader, CommonChunk, UnknownChunk,
};
use audio_demux::codecs::CodecType;
use audio_demux::errors::{Error, Fault, Feature, SeekErrorKind};
use audio_demux::formats::SeekedTo;

/// 44100 as an 80-bit extended-precision number.
const RATE_44100: [u8; 10] = [0x40, 0x0e, 0xac, 0x44, 0, 0, 0, 0, 0, 0];

fn comm(channels: i16, frames: u32, bits: i16, rate: [u8; 10]) -> Vec<u8> {
    let mut c = Vec::new();
    c.extend_from_slice(b"COMM");
    c.extend_from_slice(&18u32.to_be_bytes());
    c.extend_from_slice(&channels.to_be_bytes());
    c.extend_from_slice(&frames.to_be_bytes());
    c.extend_from_slice(&bits.to_be_bytes());
    c.extend_from_slice(&rate);
    c
}

fn ssnd(offset: u32, block_size: u32, data: &[u8]) -> Vec<u8> {
    let mut c = Vec::new();
    c.extend_from_slice(b"SSND");
    c.extend_from_slice(&((8 + data.len()) as u32).to_be_bytes());
    c.extend_from_slice(&offset.to_be_bytes());
    c.extend_from_slice(&block_size.to_be_bytes());
    c.extend_from_slice(data);
    c
}

fn chunk(id: &[u8; 4], payload: &[u8]) -> Vec<u8> {
    let mut c = Vec::new();
    c.extend_from_slice(id);
    c.extend_from_slice(&(payload.len() as u32).to_be_bytes());
    c.extend_from_slice(payload);
    c
}

fn form(form_type: &[u8; 4], chunks: &[Vec<u8>]) -> Vec<u8> {
    let len: usize = 4 + chunks.iter().map(|c| c.len()).sum::<usize>();
    let mut f = Vec::new();
    f.extend_from_slice(b"FORM");
    f.extend_from_slice(&(len as u32).to_be_bytes());
    f.extend_from_slice(form_type);
    for c in chunks {
        f.extend_from_slice(c);
    }
    f
}

fn samples(n: usize) -> Vec<u8> {
    (0..n).map(|i| (i % 251) as u8).collect()
}

#[test]
fn form_header_gives_the_declared_size() {
    let f = form(b"AIFF", &[]);
    assert_eq!(read_form_header(&f), Ok(12));
    assert_eq!(read_form_header(&f[..3]), Err(Error::UnexpectedEof));
    assert_eq!(read_form_header(&f[..11]), Err(Error::UnexpectedEof));
}

#[test]
fn form_header_refuses_other_containers() {
    let mut f = form(b"AIFF", &[]);
    f[0] = b'R';
    assert_eq!(read_form_header(&f), Err(Error::Unsupported(Feature::AiffMarker)));
    assert_eq!(
        read_form_header(&form(b"AIFC", &[])),
        Err(Error::Unsupported(Feature::AiffCompressed))
    );
    assert_eq!(
        read_form_header(&form(b"8SVX", &[])),
        Err(Error::Unsupported(Feature::AiffFormType))
    );
}

#[test]
fn directory_of_the_two_mandatory_chunks() {
    let f = form(b"AIFF", &[comm(2, 3, 16, RATE_44100), ssnd(0, 0, &samples(12))]);
    let d = read_directory(&f).unwrap();
    assert_eq!(d.file_size, f.len() as u64);
    assert_eq!(
        d.common_chunk,
        CommonChunk { num_channels: 2, num_sample_frames: 3, sample_size: 16, sample_rate: 44100 }
    );
    assert_eq!(d.sound_chunk.offset, 0);
    assert_eq!(d.sound_chunk.block_size, 0);
    assert!(d.unknown_chunks.is_empty());
    assert_eq!(d.data_start_pos, 12 + 26 + 16);
}

#[test]
fn sample_rate_is_the_value_of_the_extended_number() {
    // 48000 = 1.46484375 * 2^15, and 8000.5 is rounded towards zero.
    let r48000 = [0x40, 0x0e, 0xbb, 0x80, 0, 0, 0, 0, 0, 0];
    let r8000_5 = [0x40, 0x0b, 0xfa, 0x04, 0, 0, 0, 0, 0, 0];
    let f = form(b"AIFF", &[comm(1, 0, 16, r48000), ssnd(0, 0, &[])]);
    assert_eq!(read_directory(&f).unwrap().common_chunk.sample_rate, 48000);
    let g = form(b"AIFF", &[comm(1, 0, 16, r8000_5), ssnd(0, 0, &[])]);
    assert_eq!(read_directory(&g).unwrap().common_chunk.sample_rate, 8000);
    let z = form(b"AIFF", &[comm(1, 0, 16, [0; 10]), ssnd(0, 0, &[])]);
    assert_eq!(read_directory(&z).unwrap().common_chunk.sample_rate, 0);
}

#[test]
fn unknown_chunk_is_skipped_by_its_declared_size() {
    let junk = chunk(b"JUNK", &[9, 9, 9, 9, 9]);
    let f = form(
        b"AIFF",
        &[junk.clone(), comm(1, 2, 16, RATE_44100), chunk(b"NAME", &[]), ssnd(0, 0, &samples(4))],
    );
    let d = read_directory(&f).unwrap();
    assert_eq!(
        d.unknown_chunks,
        vec![
            UnknownChunk { id: *b"JUNK", data_size: 5 },
            UnknownChunk { id: *b"NAME", data_size: 0 },
        ]
    );
    assert_eq!(d.common_chunk.num_sample_frames, 2);
    assert_eq!(d.data_start_pos, (12 + junk.len() + 26 + 8 + 16) as u64);
}

#[test]
fn missing_sound_chunk_is_a_decode_error() {
    let f = form(b"AIFF", &[comm(1, 2, 16, RATE_44100)]);
    assert_eq!(read_directory(&f), Err(Error::DecodeError(Fault::AiffNoSoundChunk)));
    let g = form(b"AIFF", &[]);
    assert_eq!(read_directory(&g), Err(Error::DecodeError(Fault::AiffNoSoundChunk)));
}

#[test]
fn skip_past_the_declared_end_is_a_decode_error() {
    let mut junk = chunk(b"JUNK", &[]);
    junk[4..8].copy_from_slice(&1000u32.to_be_bytes());
    let mut f = form(b"AIFF", &[junk, ssnd(0, 0, &[])]);
    assert_eq!(read_directory(&f), Err(Error::DecodeError(Fault::AiffNoSoundChunk)));
    // With a larger declared size the source ends before the next chunk.
    f[4..8].copy_from_slice(&5000u32.to_be_bytes());
    assert_eq!(read_directory(&f), Err(Error::UnexpectedEof));
}

#[test]
fn truncated_chunks_end_the_input() {
    let f = form(b"AIFF", &[comm(2, 3, 16, RATE_44100), ssnd(0, 0, &[])]);
    let mut g = f.clone();
    g[4..8].copy_from_slice(&100u32.to_be_bytes());
    assert_eq!(read_directory(&g[..12 + 25]), Err(Error::UnexpectedEof));
    assert_eq!(read_directory(&g[..12 + 26 + 15]), Err(Error::UnexpectedEof));
    assert_eq!(read_directory(&g[..12 + 26 + 4]), Err(Error::UnexpectedEof));
}

#[test]
fn block_alignment_is_unsupported() {
    let f = form(b"AIFF", &[comm(2, 3, 16, RATE_44100), ssnd(4, 0, &samples(12))]);
    assert_eq!(read_directory(&f), Err(Error::Unsupported(Feature::AiffBlockAlign)));
    let g = form(b"AIFF", &[comm(2, 3, 16, RATE_44100), ssnd(0, 512, &samples(12))]);
    assert_eq!(read_directory(&g), Err(Error::Unsupported(Feature::AiffBlockAlign)));
}

#[test]
fn track_of_a_stereo_stream() {
    let common =
        CommonChunk { num_channels: 2, num_sample_frames: 7, sample_size: 16, sample_rate: 44100 };
    let (track, info) = build_track(&common).unwrap();
    assert_eq!(track.id, 0);
    let p = track.codec_params;
    assert_eq!(p.codec, CodecType::PcmS16Be);
    assert_eq!(p.sample_rate, Some(44100));
    assert_eq!(p.n_frames, Some(7));
    assert_eq!(p.bits_per_sample, Some(16));
    assert_eq!(p.bits_per_coded_sample, None);
    assert_eq!(p.channels.unwrap().bits(), 0b11);
    assert_eq!(p.channel_layout, None);
    assert_eq!(p.max_frames_per_packet, Some(1152));
    assert_eq!(p.frames_per_block, Some(1));
    assert!(p.packet_data_integrity);
    assert_eq!(info.block_size, 4);
    assert_eq!(info.frames_per_block, 1);
    assert_eq!(info.max_blocks_per_packet, 1152);
}

#[test]
fn track_of_six_channels_covers_the_first_six_positions() {
    let common =
        CommonChunk { num_channels: 6, num_sample_frames: 1, sample_size: 16, sample_rate: 48000 };
    let (track, info) = build_track(&common).unwrap();
    assert_eq!(track.codec_params.channels.unwrap().bits(), 0x3f);
    assert_eq!(info.block_size, 12);
}

#[test]
fn every_count_from_1_to_32_has_its_mask() {
    for channels in 1..=32i16 {
        let common = CommonChunk {
            num_channels: channels,
            num_sample_frames: 1,
            sample_size: 16,
            sample_rate: 44100,
        };
        let (track, info) = build_track(&common).unwrap();
        let bits = track.codec_params.channels.unwrap().bits();
        assert_eq!(bits as u64, (1u64 << channels) - 1);
        assert_eq!(bits.count_ones(), channels as u32);
        assert_eq!(info.block_size, 2 * channels as u64);
    }
    let common =
        CommonChunk { num_channels: 27, num_sample_frames: 1, sample_size: 16, sample_rate: 1 };
    assert_eq!(build_track(&common).unwrap().0.codec_params.channels.unwrap().bits(), 0x07ff_ffff);
    let common =
        CommonChunk { num_channels: 32, num_sample_frames: 1, sample_size: 16, sample_rate: 1 };
    assert_eq!(build_track(&common).unwrap().0.codec_params.channels.unwrap().bits(), 0xffff_ffff);
}

#[test]
fn container_with_32_channels_opens() {
    let data = samples(64 * 3);
    let f = form(b"AIFF", &[comm(32, 3, 16, RATE_44100), ssnd(0, 0, &data)]);
    let mut r = AiffReader::try_new(f).unwrap();
    assert_eq!(r.tracks()[0].codec_params.channels.unwrap().bits(), 0xffff_ffff);
    let p = r.next_packet().unwrap();
    assert_eq!((p.ts, p.dur), (0, 3));
    assert_eq!(p.data, data);
}

#[test]
fn channel_count_of_33_is_unsupported() {
    for channels in [33i16, 0, -1, 34, 255, 256, i16::MAX, i16::MIN] {
        let common = CommonChunk {
            num_channels: channels,
            num_sample_frames: 1,
            sample_size: 16,
            sample_rate: 44100,
        };
        assert_eq!(build_track(&common), Err(Error::Unsupported(Feature::ChannelCount)));
    }
}

#[test]
fn other_sample_sizes_are_unsupported() {
    for bits in [8i16, 24, 32, 0, -16] {
        let common = CommonChunk {
            num_channels: 2,
            num_sample_frames: 1,
            sample_size: bits,
            sample_rate: 44100,
        };
        assert_eq!(build_track(&common), Err(Error::Unsupported(Feature::AiffSampleSize)));
    }
    // The channels are looked at first.
    let both = CommonChunk {
        num_channels: 0,
        num_sample_frames: 1,
        sample_size: 8,
        sample_rate: 44100,
    };
    assert_eq!(build_track(&both), Err(Error::Unsupported(Feature::ChannelCount)));
}

#[test]
fn container_without_a_common_chunk_has_no_channels() {
    let f = form(b"AIFF", &[ssnd(0, 0, &samples(4))]);
    assert!(matches!(AiffReader::try_new(f), Err(Error::Unsupported(Feature::ChannelCount))));
}

#[test]
fn empty_stream_ends_at_once() {
    let f = form(b"AIFF", &[comm(2, 0, 16, RATE_44100), ssnd(0, 0, &[])]);
    let mut r = AiffReader::try_new(f).unwrap();
    assert_eq!(r.tracks().len(), 1);
    assert_eq!(r.tracks()[0].codec_params.n_frames, Some(0));
    assert_eq!(r.next_packet(), Err(Error::EndOfStream));
    assert_eq!(r.next_packet(), Err(Error::EndOfStream));
    assert_eq!(r.seek(0), Err(Error::SeekError(SeekErrorKind::OutOfRange)));
}

#[test]
fn packets_cover_the_sound_data() {
    let frames = 3000usize;
    let data = samples(frames * 4);
    let f = form(b"AIFF", &[comm(2, frames as u32, 16, RATE_44100), ssnd(0, 0, &data)]);
    let source = f.clone();
    let mut r = AiffReader::try_new(f).unwrap();
    let mut all = Vec::new();
    let mut expected_ts = 0u64;
    let mut durs = Vec::new();
    loop {
        match r.next_packet() {
            Ok(p) => {
                assert_eq!(p.track_id, 0);
                assert_eq!(p.ts, expected_ts);
                assert_eq!(p.data.len() as u64, p.dur * 4);
                expected_ts += p.dur;
                durs.push(p.dur);
                all.extend_from_slice(&p.data);
            }
            Err(e) => {
                assert_eq!(e, Error::EndOfStream);
                break;
            }
        }
    }
    assert_eq!(durs, vec![1152, 1152, 696]);
    assert_eq!(expected_ts, frames as u64);
    assert_eq!(all, data);
    assert_eq!(r.next_packet(), Err(Error::EndOfStream));
    assert_eq!(r.pos(), source.len() as u64);
    assert_eq!(r.into_inner(), source);
}

#[test]
fn partial_frame_at_the_end_is_left_out() {
    let data = samples(4 * 5 + 3);
    let f = form(b"AIFF", &[comm(2, 5, 16, RATE_44100), ssnd(0, 0, &data)]);
    let mut r = AiffReader::try_new(f).unwrap();
    let p = r.next_packet().unwrap();
    assert_eq!((p.ts, p.dur), (0, 5));
    assert_eq!(p.data, data[..20].to_vec());
    assert_eq!(r.next_packet(), Err(Error::EndOfStream));
}

#[test]
fn seek_lands_on_the_frame() {
    let frames = 2000usize;
    let data = samples(frames * 2);
    let f = form(b"AIFF", &[comm(1, frames as u32, 16, RATE_44100), ssnd(0, 0, &data)]);
    let mut r = AiffReader::try_new(f).unwrap();
    assert_eq!(r.seek(1500), Ok(SeekedTo { track_id: 0, required_ts: 1500, actual_ts: 1500 }));
    let p = r.next_packet().unwrap();
    assert_eq!((p.ts, p.dur), (1500, 500));
    assert_eq!(p.data, data[3000..].to_vec());
    assert_eq!(r.next_packet(), Err(Error::EndOfStream));
    // A seek opens an exhausted reader again.
    assert_eq!(r.seek(0), Ok(SeekedTo { track_id: 0, required_ts: 0, actual_ts: 0 }));
    assert_eq!(r.next_packet().unwrap().dur, 1152);
    assert_eq!(r.seek(2000), Err(Error::SeekError(SeekErrorKind::OutOfRange)));
    assert_eq!(r.next_packet().unwrap().ts, 1152);
}

#[test]
fn source_shorter_than_declared_ends_unexpectedly() {
    let data = samples(40);
    let mut f = form(b"AIFF", &[comm(2, 10, 16, RATE_44100), ssnd(0, 0, &data)]);
    f.truncate(f.len() - 6);
    let mut r = AiffReader::try_new(f).unwrap();
    assert_eq!(r.next_packet(), Err(Error::UnexpectedEof));
    assert_eq!(r.next_packet(), Err(Error::UnexpectedEof));
}
