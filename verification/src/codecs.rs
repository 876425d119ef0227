//! What a demuxer tells a decoder about the stream of a track.

use vstd::prelude::*;
use crate::audio::{Channels, Layout};

verus! {

/// The codec of a track.
#[derive(Clone, Copy, Debug, PartialEq, Eq, Structural)]
pub enum CodecType {
    /// No codec.
    Null,
    /// Signed 16-bit big-endian interleaved PCM.
    PcmS16Be,
    /// WavPack with floating-point samples.
    WavPackPcmFloat,
    /// WavPack with integer samples of 1 to 8 bits.
    WavPackPcmI8,
    /// WavPack with integer samples of 9 to 16 bits.
    WavPackPcmI16,
    /// WavPack with integer samples of 17 to 24 bits.
    WavPackPcmI24,
    /// WavPack with integer samples of 25 to 32 bits.
    WavPackPcmI32,
    /// WavPack with DSD audio.
    WavPackDsd,
}

/// The parameters of the codec of a track.
#[derive(Clone, Copy, Debug, PartialEq, Eq)]
pub struct CodecParameters {
    /// The codec.
    pub codec: CodecType,
    /// The sample rate in hertz.
    pub sample_rate: Option<u32>,
    /// The number of frames in the whole track.
    pub n_frames: Option<u64>,
    /// The number of bits of a decoded sample.
    pub bits_per_sample: Option<u32>,
    /// The number of bits of an encoded sample.
    pub bits_per_coded_sample: Option<u32>,
    /// The mask of the channels.
    pub channels: Option<Channels>,
    /// The layout of the channels.
    pub channel_layout: Option<Layout>,
    /// The largest number of frames that a packet holds.
    pub max_frames_per_packet: Option<u64>,
    /// Whether the demuxer vouches for the integrity of the packet data.
    pub packet_data_integrity: bool,
    /// The number of frames of a block.
    pub frames_per_block: Option<u64>,
}

impl CodecParameters {
    /// The parameters in which nothing is set.
    pub open spec fn spec_new() -> CodecParameters {
        CodecParameters {
            codec: CodecType::Null,
            sample_rate: None,
            n_frames: None,
            bits_per_sample: None,
            bits_per_coded_sample: None,
            channels: None,
            channel_layout: None,
            max_frames_per_packet: None,
            packet_data_integrity: false,
            frames_per_block: None,
        }
    }

    /// Makes parameters in which nothing is set.
    pub fn new() -> (r: CodecParameters)
        ensures
            r == Self::spec_new(),
    {
        CodecParameters {
            codec: CodecType::Null,
            sample_rate: None,
            n_frames: None,
            bits_per_sample: None,
            bits_per_coded_sample: None,
            channels: None,
            channel_layout: None,
            max_frames_per_packet: None,
            packet_data_integrity: false,
            frames_per_block: None,
        }
    }
}

} // verus!
