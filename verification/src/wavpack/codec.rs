//! What a decoder of the block dialect needs before it can start.

use vstd::prelude::*;
use crate::audio::{layout_bits, Channels, SignalSpec};
use crate::codecs::{CodecParameters, CodecType};
use crate::errors::{Error, Feature};

verus! {

/// The set-up of a WavPack decoder: the parameters of the codec, the
/// signal that it produces and the number of frames that its buffer has
/// to hold.
#[derive(Clone, Copy, Debug, PartialEq, Eq)]
pub struct WavPackDecoder {
    params: CodecParameters,
    spec: SignalSpec,
    capacity: u64,
}

/// A view of a decoder.
pub struct WavPackDecoderView {
    /// The parameters that the decoder was made with.
    pub params: CodecParameters,
    /// The rate of the signal in hertz.
    pub rate: u32,
    /// The bits of the channel mask of the signal.
    pub channels: u32,
    /// The number of frames that the buffer holds.
    pub capacity: u64,
}

impl View for WavPackDecoder {
    type V = WavPackDecoderView;

    closed spec fn view(&self) -> WavPackDecoderView {
        WavPackDecoderView {
            params: self.params,
            rate: self.spec.rate,
            channels: self.spec.channels@,
            capacity: self.capacity,
        }
    }
}

/// What making a decoder for `params` gives. The largest number of
/// frames of a packet and the sample rate are required, in that order.
/// The channels are those of the mask if there is one, else those of
/// the layout; one of the two is required.
pub open spec fn spec_try_new(params: CodecParameters) -> Result<WavPackDecoderView, Error> {
    if params.max_frames_per_packet is None {
        Err(Error::Unsupported(Feature::MaxFramesPerPacket))
    } else if params.sample_rate is None {
        Err(Error::Unsupported(Feature::SampleRate))
    } else if params.channels is None && params.channel_layout is None {
        Err(Error::Unsupported(Feature::Channels))
    } else {
        Ok(
            WavPackDecoderView {
                params,
                rate: params.sample_rate->Some_0,
                channels: match params.channels {
                    Some(channels) => channels@,
                    None => layout_bits(params.channel_layout->Some_0),
                },
                capacity: params.max_frames_per_packet->Some_0,
            },
        )
    }
}

/// The codecs of the block dialect.
pub open spec fn spec_supported_codecs() -> Seq<CodecType> {
    seq![
        CodecType::WavPackPcmFloat,
        CodecType::WavPackPcmI8,
        CodecType::WavPackPcmI16,
        CodecType::WavPackPcmI24,
        CodecType::WavPackPcmI32,
        CodecType::WavPackDsd,
    ]
}

impl WavPackDecoder {
    /// Makes a decoder for a stream with the parameters `params`.
    pub fn try_new(params: &CodecParameters) -> (res: Result<WavPackDecoder, Error>)
        ensures
            match spec_try_new(*params) {
                Ok(view) => res matches Ok(decoder) && decoder@ == view,
                Err(e) => res matches Err(err) && err == e,
            },
    {
        let frames = match params.max_frames_per_packet {
            Some(frames) => frames,
            None => {
                return Err(Error::Unsupported(Feature::MaxFramesPerPacket));
            },
        };
        let rate = match params.sample_rate {
            Some(rate) => rate,
            None => {
                return Err(Error::Unsupported(Feature::SampleRate));
            },
        };
        let spec = if let Some(channels) = params.channels {
            SignalSpec::new(rate, channels)
        } else if let Some(layout) = params.channel_layout {
            SignalSpec::new_with_layout(rate, layout)
        } else {
            return Err(Error::Unsupported(Feature::Channels));
        };
        Ok(WavPackDecoder { params: *params, spec, capacity: frames })
    }

    /// The codecs that the decoder is for.
    pub fn supported_codecs() -> (codecs: Vec<CodecType>)
        ensures
            codecs@ == spec_supported_codecs(),
    {
        let mut codecs = Vec::new();
        codecs.push(CodecType::WavPackPcmFloat);
        codecs.push(CodecType::WavPackPcmI8);
        codecs.push(CodecType::WavPackPcmI16);
        codecs.push(CodecType::WavPackPcmI24);
        codecs.push(CodecType::WavPackPcmI32);
        codecs.push(CodecType::WavPackDsd);
        assert(codecs@ =~= spec_supported_codecs());
        codecs
    }

    /// Resets the decoder. It keeps no state between packets, so nothing changes.
    pub fn reset(&mut self)
        ensures
            *final(self) == *old(self),
    {
    }

    /// The parameters that the decoder was made with.
    pub fn codec_params(&self) -> (params: &CodecParameters)
        ensures
            *params == self@.params,
    {
        &self.params
    }

    /// The signal that the decoder produces.
    pub fn signal_spec(&self) -> (spec: SignalSpec)
        ensures
            spec.rate == self@.rate,
            spec.channels@ == self@.channels,
    {
        self.spec
    }

    /// The number of frames that the buffer of the decoder holds.
    pub fn capacity(&self) -> (capacity: u64)
        ensures
            capacity == self@.capacity,
    {
        self.capacity
    }
}

} // verus!
