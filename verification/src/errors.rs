//! The error type shared by every dialect.

use vstd::prelude::*;

verus! {

/// A recognised feature of the input that this crate does not handle.
#[derive(Clone, Copy, Debug, PartialEq, Eq, Structural)]
pub enum Feature {
    /// The stream does not start with the WavPack block marker.
    WavPackMarker,
    /// The WavPack stream version is not one of the two that are decoded.
    WavPackVersion,
    /// The bit depth code of a WavPack block is outside the known codes.
    WavPackBitDepth,
    /// The number of channels has no channel mask.
    ChannelCount,
    /// The stream holds more frames than a 64-bit timestamp can count.
    StreamLength,
    /// The stream does not start with the `FORM` marker.
    AiffMarker,
    /// The form holds compressed audio (`AIFC`).
    AiffCompressed,
    /// The form type is neither `AIFF` nor `AIFC`.
    AiffFormType,
    /// The sound chunk asks for block-aligned data.
    AiffBlockAlign,
    /// The sample size is not one that is decoded.
    AiffSampleSize,
    /// The codec parameters lack the maximum number of frames per packet.
    MaxFramesPerPacket,
    /// The codec parameters lack the sample rate.
    SampleRate,
    /// The codec parameters lack both a channel mask and a channel layout.
    Channels,
}

/// A structural fault of the input.
#[derive(Clone, Copy, Debug, PartialEq, Eq, Structural)]
pub enum Fault {
    /// The chunk list reached the declared end of the form without a sound chunk.
    AiffNoSoundChunk,
    /// The size of a block is zero, so no packet can be cut.
    ZeroBlockSize,
    /// An atom declares a size smaller than its own header.
    AtomTooSmall,
    /// An atom does not fit into what is left of its parent.
    AtomOverrun,
    /// An atom is too short for the fields that it has to hold.
    AtomTruncated,
    /// A track fragment does not hold exactly one fragment header.
    TrafHeaderCount,
}

/// Why a seek was refused.
#[derive(Clone, Copy, Debug, PartialEq, Eq, Structural)]
pub enum SeekErrorKind {
    /// The requested timestamp is not before the end of the stream.
    OutOfRange,
}

/// What can go wrong while a container is taken apart.
#[derive(Clone, Copy, Debug, PartialEq, Eq, Structural)]
pub enum Error {
    /// The input ended inside a field that had to be read.
    UnexpectedEof,
    /// The input is structurally invalid.
    DecodeError(Fault),
    /// The input is well formed but uses something that is not handled.
    Unsupported(Feature),
    /// No packet is left. This ends a stream in the normal way.
    EndOfStream,
    /// The stream could not be repositioned.
    SeekError(SeekErrorKind),
}

impl Feature {
    /// The words that name the feature.
    pub open spec fn spec_message(self) -> Seq<char> {
        match self {
            Feature::WavPackMarker => "wavpack: missing stream marker"@,
            Feature::WavPackVersion => "wavpack: unsupported version"@,
            Feature::WavPackBitDepth => "wavpack: unsupported bit depth"@,
            Feature::ChannelCount => "track: unsupported number of channels"@,
            Feature::StreamLength => "wavpack: stream too long for 64-bit timestamps"@,
            Feature::AiffMarker => "aiff: missing form stream marker"@,
            Feature::AiffCompressed => "aiff: compressed audio not supported"@,
            Feature::AiffFormType => "aiff: unsupported form type"@,
            Feature::AiffBlockAlign => "aiff: does not support block aligning"@,
            Feature::AiffSampleSize => "aiff: bits per sample must be 16"@,
            Feature::MaxFramesPerPacket => "wavpack: maximum frames per packet is required"@,
            Feature::SampleRate => "wavpack: sample rate is required"@,
            Feature::Channels => "wavpack: channels or channel_layout is required"@,
        }
    }

    /// The words that name the feature: the dialect, then what is not handled.
    pub fn message(&self) -> (text: &'static str)
        ensures
            text@ == self.spec_message(),
    {
        match self {
            Feature::WavPackMarker => "wavpack: missing stream marker",
            Feature::WavPackVersion => "wavpack: unsupported version",
            Feature::WavPackBitDepth => "wavpack: unsupported bit depth",
            Feature::ChannelCount => "track: unsupported number of channels",
            Feature::StreamLength => "wavpack: stream too long for 64-bit timestamps",
            Feature::AiffMarker => "aiff: missing form stream marker",
            Feature::AiffCompressed => "aiff: compressed audio not supported",
            Feature::AiffFormType => "aiff: unsupported form type",
            Feature::AiffBlockAlign => "aiff: does not support block aligning",
            Feature::AiffSampleSize => "aiff: bits per sample must be 16",
            Feature::MaxFramesPerPacket => "wavpack: maximum frames per packet is required",
            Feature::SampleRate => "wavpack: sample rate is required",
            Feature::Channels => "wavpack: channels or channel_layout is required",
        }
    }
}

impl Fault {
    /// The words that name the fault.
    pub open spec fn spec_message(self) -> Seq<char> {
        match self {
            Fault::AiffNoSoundChunk => "aiff: no SSND chunk was found"@,
            Fault::ZeroBlockSize => "packet: block size is 0"@,
            Fault::AtomTooSmall => "isomp4: atom smaller than its header"@,
            Fault::AtomOverrun => "isomp4: atom exceeds its parent"@,
            Fault::AtomTruncated => "isomp4: atom too short for its fields"@,
            Fault::TrafHeaderCount => "isomp4: traf needs exactly one tfhd atom"@,
        }
    }

    /// The words that name the fault: the dialect, then what is wrong.
    pub fn message(&self) -> (text: &'static str)
        ensures
            text@ == self.spec_message(),
    {
        match self {
            Fault::AiffNoSoundChunk => "aiff: no SSND chunk was found",
            Fault::ZeroBlockSize => "packet: block size is 0",
            Fault::AtomTooSmall => "isomp4: atom smaller than its header",
            Fault::AtomOverrun => "isomp4: atom exceeds its parent",
            Fault::AtomTruncated => "isomp4: atom too short for its fields",
            Fault::TrafHeaderCount => "isomp4: traf needs exactly one tfhd atom",
        }
    }
}

impl Error {
    /// Whether the error reports a defect of the input or of the request,
    /// as opposed to the normal end of the packet stream.
    pub open spec fn is_fatal(self) -> bool {
        !(self is EndOfStream)
    }

    /// The words that describe the error.
    pub open spec fn spec_message(self) -> Seq<char> {
        match self {
            Error::UnexpectedEof => "unexpected end of input"@,
            Error::DecodeError(fault) => fault.spec_message(),
            Error::Unsupported(feature) => feature.spec_message(),
            Error::EndOfStream => "end of stream"@,
            Error::SeekError(SeekErrorKind::OutOfRange) =>
                "requested seek timestamp is out-of-range for stream"@,
        }
    }

    /// The words that describe the error.
    pub fn message(&self) -> (text: &'static str)
        ensures
            text@ == self.spec_message(),
    {
        match self {
            Error::UnexpectedEof => "unexpected end of input",
            Error::DecodeError(fault) => fault.message(),
            Error::Unsupported(feature) => feature.message(),
            Error::EndOfStream => "end of stream",
            Error::SeekError(SeekErrorKind::OutOfRange) =>
                "requested seek timestamp is out-of-range for stream",
        }
    }

    /// Whether the error ends the stream in the normal way.
    pub fn is_end_of_stream(&self) -> (r: bool)
        ensures
            r == !self.is_fatal(),
    {
        match self {
            Error::EndOfStream => true,
            _ => false,
        }
    }
}

} // verus!
