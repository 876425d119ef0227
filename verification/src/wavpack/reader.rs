//! The demuxer of the block dialect.

use vstd::prelude::*;
use crate::audio::{first_positions, Channels};
pub use crate::audio::try_channel_count_to_mask;
use crate::codecs::{CodecParameters, CodecType};
use crate::errors::{Error, Feature};
use crate::formats::{
    DataBounds, Demuxer, DemuxerView, Packet, PacketInfo, SeekedTo, Track,
};
use crate::wavpack::header::{decode_header, spec_decode_header, Encoding, Header};

verus! {

/// The largest number of blocks that go into one packet. The format has
/// no packets of its own, so the number is a matter of choice.
pub const MAX_FRAMES_PER_PACKET: u64 = 1152;

/// The value of the 40-bit total that stands for an unknown length.
pub const UNKNOWN_TOTAL: u64 = 0xff_ffff_ffff;

/// The number of channels of a block: 2 for stereo, 1 for mono.
pub open spec fn channel_count(header: Header) -> u16 {
    if header.flags.stereo {
        2
    } else {
        1
    }
}

/// The codec of a stream: one for PCM and one for DSD.
pub open spec fn codec_of(encoding: Encoding) -> CodecType {
    match encoding {
        Encoding::Pcm => CodecType::WavPackPcmI16,
        Encoding::Dsd => CodecType::WavPackDsd,
    }
}

/// The number of frames of the whole stream as the first block declares
/// it. A total of all ones is taken to stand for an unknown length; this
/// reading of the format is an assumption.
pub open spec fn declared_frames(header: Header) -> Option<u64> {
    match header.total_samples {
        Some(total) => if total == UNKNOWN_TOTAL {
            None
        } else {
            Some(total)
        },
        None => None,
    }
}

/// The codec parameters that the first block of a stream gives. The
/// header names the sample rate by a code only, so no rate is set.
pub open spec fn spec_codec_params(header: Header) -> CodecParameters {
    CodecParameters {
        codec: codec_of(header.flags.encoding),
        sample_rate: None,
        n_frames: declared_frames(header),
        bits_per_sample: Some(header.flags.bits_per_sample),
        bits_per_coded_sample: Some(header.flags.bits_per_sample),
        channels: Some(Channels::spec_from_bits(first_positions(channel_count(header)))),
        channel_layout: None,
        max_frames_per_packet: Some((MAX_FRAMES_PER_PACKET * header.block_samples) as u64),
        packet_data_integrity: false,
        frames_per_block: Some(header.block_samples as u64),
    }
}

/// How the stream divides into packets: block by block, the frames of a
/// block being those of the first.
pub open spec fn spec_packet_info(header: Header) -> PacketInfo {
    PacketInfo {
        block_size: header.block_size,
        frames_per_block: header.block_samples as u64,
        max_blocks_per_packet: MAX_FRAMES_PER_PACKET,
    }
}

/// The track and the packet layout that the first block of a stream gives.
pub open spec fn spec_build_track(header: Header) -> (Track, PacketInfo) {
    (Track { id: 0, codec_params: spec_codec_params(header) }, spec_packet_info(header))
}

/// Builds the one track of a stream, and the layout of its packets, from
/// the header of the first block. A block is mono or stereo, so the
/// channel mask is always there.
pub fn build_track(header: &Header) -> (res: Result<(Track, PacketInfo), Error>)
    ensures
        res == Ok::<(Track, PacketInfo), Error>(spec_build_track(*header)),
{
    let codec = match header.flags.encoding {
        Encoding::Pcm => CodecType::WavPackPcmI16,
        Encoding::Dsd => CodecType::WavPackDsd,
    };
    let n_channels: u16 = if header.flags.stereo {
        2
    } else {
        1
    };
    let channels = match try_channel_count_to_mask(n_channels) {
        Ok(channels) => channels,
        Err(e) => {
            return Err(e);
        },
    };
    proof {
        channels.lemma_mask_is_its_bits(first_positions(n_channels));
    }
    let n_frames = match header.total_samples {
        Some(total) => if total == UNKNOWN_TOTAL {
            None
        } else {
            Some(total)
        },
        None => None,
    };
    let frames_per_block = header.block_samples as u64;
    let codec_params = CodecParameters {
        codec,
        sample_rate: None,
        n_frames,
        bits_per_sample: Some(header.flags.bits_per_sample),
        bits_per_coded_sample: Some(header.flags.bits_per_sample),
        channels: Some(channels),
        channel_layout: None,
        max_frames_per_packet: Some(MAX_FRAMES_PER_PACKET * frames_per_block),
        packet_data_integrity: false,
        frames_per_block: Some(frames_per_block),
    };
    let info = PacketInfo {
        block_size: header.block_size,
        frames_per_block,
        max_blocks_per_packet: MAX_FRAMES_PER_PACKET,
    };
    Ok((Track::new(0, codec_params), info))
}

/// A view of a reader: its packet stream, its tracks and the header of
/// the first block.
pub struct WavPackReaderView {
    pub demuxer: DemuxerView,
    pub tracks: Seq<Track>,
    pub header: Header,
}

/// A demuxer for a WavPack stream that is held in memory.
pub struct WavPackReader {
    demuxer: Demuxer,
    tracks: Vec<Track>,
    header: Header,
}

impl View for WavPackReader {
    type V = WavPackReaderView;

    closed spec fn view(&self) -> WavPackReaderView {
        WavPackReaderView { demuxer: self.demuxer@, tracks: self.tracks@, header: self.header }
    }
}

/// The data of a stream of `source_len` bytes: the whole source, the
/// first block included.
pub open spec fn data_bounds(source_len: u64) -> DataBounds {
    DataBounds { start: 0, end: source_len }
}

/// The data of a stream of `source_len` bytes, unless the stream holds
/// more frames than a 64-bit timestamp can count.
pub open spec fn spec_stream_bounds(info: PacketInfo, source_len: u64) -> Result<
    DataBounds,
    Error,
> {
    if info.fits(data_bounds(source_len)) {
        Ok(data_bounds(source_len))
    } else {
        Err(Error::Unsupported(Feature::StreamLength))
    }
}

/// Finds the data of a stream of `source_len` bytes that divides into
/// packets as `info` says, and makes sure that its frames can be counted.
pub fn stream_bounds(info: &PacketInfo, source_len: u64) -> (res: Result<DataBounds, Error>)
    ensures
        res == spec_stream_bounds(*info, source_len),
{
    let bounds = DataBounds { start: 0, end: source_len };
    if info.block_size > 0 && info.try_get_frames(source_len).is_none() {
        return Err(Error::Unsupported(Feature::StreamLength));
    }
    Ok(bounds)
}

/// What opening a stream gives: the error of the header of the first
/// block if it has one; else a refusal if the frames of the stream
/// cannot be counted in 64 bits; else a reader that stands at the first
/// block, with the one track of the stream.
pub open spec fn spec_try_new(source: Seq<u8>) -> Result<WavPackReaderView, Error> {
    match spec_decode_header(source) {
        Err(e) => Err(e),
        Ok(header) => match spec_stream_bounds(spec_packet_info(header), source.len() as u64) {
            Err(e) => Err(e),
            Ok(bounds) => Ok(
                WavPackReaderView {
                    demuxer: DemuxerView {
                        source,
                        pos: 0,
                        track_id: 0,
                        info: spec_packet_info(header),
                        bounds,
                        exhausted: false,
                    },
                    tracks: seq![spec_build_track(header).0],
                    header,
                },
            ),
        },
    }
}

impl WavPackReaderView {
    /// What holds of a reader from the time it is opened: it has one
    /// track, whose packets its packet stream hands out, and the packet
    /// stream is well formed.
    pub open spec fn wf(&self) -> bool {
        &&& self.demuxer.wf()
        &&& self.tracks.len() == 1
        &&& self.tracks[0].id == self.demuxer.track_id
    }
}

impl WavPackReader {
    /// Opens a stream. The header of the first block is decoded to learn
    /// the format of the stream, and the reader then stands before that
    /// block again, so that the first packet starts with it.
    pub fn try_new(source: Vec<u8>) -> (res: Result<WavPackReader, Error>)
        ensures
            match spec_try_new(source@) {
                Ok(view) => res matches Ok(reader) && reader@ == view && reader@.wf(),
                Err(e) => res matches Err(err) && err == e,
            },
    {
        let header = match decode_header(source.as_slice()) {
            Ok(header) => header,
            Err(e) => {
                return Err(e);
            },
        };
        let (track, info) = match build_track(&header) {
            Ok(built) => built,
            Err(e) => {
                return Err(e);
            },
        };
        let bounds = match stream_bounds(&info, source.len() as u64) {
            Ok(bounds) => bounds,
            Err(e) => {
                return Err(e);
            },
        };
        let demuxer = Demuxer::new(source, 0, info, bounds);
        let mut tracks = Vec::new();
        tracks.push(track);
        Ok(WavPackReader { demuxer, tracks, header })
    }

    /// Reads the next packet of the track.
    pub fn next_packet(&mut self) -> (res: Result<Packet, Error>)
        ensures
            old(self)@.wf() ==> final(self)@.wf(),
            final(self)@ == (WavPackReaderView {
                demuxer: old(self)@.demuxer.after_next(),
                ..old(self)@
            }),
            match old(self)@.demuxer.next_plan() {
                Ok(plan) => res matches Ok(packet) && {
                    &&& packet.track_id == old(self)@.demuxer.track_id
                    &&& packet.ts == plan.ts
                    &&& packet.dur == plan.dur
                    &&& packet.data@ == old(self)@.demuxer.source.subrange(
                        plan.start as int,
                        plan.end(),
                    )
                },
                Err(e) => res == Err::<Packet, Error>(e),
            },
    {
        self.demuxer.next_packet()
    }

    /// Moves to the block that holds the frame `ts`.
    pub fn seek(&mut self, ts: u64) -> (res: Result<SeekedTo, Error>)
        ensures
            old(self)@.wf() ==> final(self)@.wf(),
            final(self)@ == (WavPackReaderView {
                demuxer: old(self)@.demuxer.after_seek(ts),
                ..old(self)@
            }),
            match old(self)@.demuxer.info.spec_plan_seek(old(self)@.demuxer.bounds, ts as int) {
                Ok(plan) => res == Ok::<SeekedTo, Error>(
                    SeekedTo {
                        track_id: old(self)@.demuxer.track_id,
                        required_ts: ts,
                        actual_ts: plan.actual_ts,
                    },
                ),
                Err(e) => res == Err::<SeekedTo, Error>(e),
            },
    {
        self.demuxer.seek(ts)
    }

    /// The tracks of the stream: there is exactly one.
    pub fn tracks(&self) -> (tracks: &Vec<Track>)
        ensures
            tracks@ == self@.tracks,
    {
        &self.tracks
    }

    /// The header of the first block.
    pub fn header(&self) -> (header: Header)
        ensures
            header == self@.header,
    {
        self.header
    }

    /// The position in the source of the next byte that is handed out.
    pub fn pos(&self) -> (pos: u64)
        ensures
            pos == self@.demuxer.pos,
    {
        self.demuxer.pos()
    }

    /// Closes the reader and hands the source back.
    pub fn into_inner(self) -> (source: Vec<u8>)
        ensures
            source@ == self@.demuxer.source,
    {
        self.demuxer.into_inner()
    }
}

} // verus!
