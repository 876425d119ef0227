//! The flat dialect: a `FORM` container whose chunks lie one behind the
//! other, up to the chunk that holds the sound data.

use vstd::prelude::*;
use vstd::arithmetic::div_mod::{lemma_div_is_ordered, lemma_fundamental_div_mod, lemma_mod_bound};
use vstd::arithmetic::mul::lemma_mul_inequality;
use crate::audio::{first_positions, try_channel_count_to_mask, Channels, MAX_CHANNELS};
use crate::bytes::{be_i16, be_u32, read_be_i16, read_be_u32};
use crate::codecs::{CodecParameters, CodecType};
use crate::errors::{Error, Fault, Feature};
use crate::formats::{
    total_duration, DataBounds, Demuxer, DemuxerView, Packet, PacketInfo, SeekedTo, Track,
};

verus! {

/// The tag that opens the container, read as a big-endian number.
pub const FORM_TAG: u32 = 0x464f_524d;

/// The form type of uncompressed audio, `AIFF`.
pub const AIFF_TAG: u32 = 0x4149_4646;

/// The form type of compressed audio, `AIFC`.
pub const AIFC_TAG: u32 = 0x4149_4643;

/// The id of the common chunk, `COMM`.
pub const COMM_TAG: u32 = 0x434f_4d4d;

/// The id of the sound data chunk, `SSND`.
pub const SSND_TAG: u32 = 0x5353_4e44;

/// The largest number of frames that go into one packet.
pub const AIFF_MAX_FRAMES_PER_PACKET: u64 = 1152;

/// The one sample size that is decoded.
pub const SAMPLE_SIZE: i16 = 16;

/// The description of the audio: the common chunk.
#[derive(Clone, Copy, Debug, PartialEq, Eq, Structural)]
pub struct CommonChunk {
    /// The number of channels.
    pub num_channels: i16,
    /// The number of frames of the sound data.
    pub num_sample_frames: u32,
    /// The number of bits of a sample.
    pub sample_size: i16,
    /// The sample rate in whole hertz.
    pub sample_rate: u32,
}

/// The two fields that lead the sound data chunk.
#[derive(Clone, Copy, Debug, PartialEq, Eq, Structural)]
pub struct SoundChunk {
    /// The offset of the first frame in the data.
    pub offset: u32,
    /// The size of the blocks that the data is aligned to.
    pub block_size: u32,
}

/// A chunk that is passed over: its id and its declared size.
#[derive(Clone, Copy, Debug, PartialEq, Eq)]
pub struct UnknownChunk {
    pub id: [u8; 4],
    pub data_size: u32,
}

/// What the chunks before the sound data say.
#[derive(Debug, PartialEq, Eq)]
pub struct Directory {
    /// The declared size of the container, its first eight bytes included.
    pub file_size: u64,
    /// The common chunk that was read last; all zero if there was none.
    pub common_chunk: CommonChunk,
    /// The leading fields of the sound data chunk.
    pub sound_chunk: SoundChunk,
    /// The chunks that were passed over, in the order of the source.
    pub unknown_chunks: Vec<UnknownChunk>,
    /// The position of the first byte of the sound data.
    pub data_start_pos: u64,
}

/// A view of a directory.
pub struct DirectoryView {
    pub file_size: u64,
    pub common_chunk: CommonChunk,
    pub sound_chunk: SoundChunk,
    pub unknown_chunks: Seq<UnknownChunk>,
    pub data_start_pos: u64,
}

impl View for Directory {
    type V = DirectoryView;

    open spec fn view(&self) -> DirectoryView {
        DirectoryView {
            file_size: self.file_size,
            common_chunk: self.common_chunk,
            sound_chunk: self.sound_chunk,
            unknown_chunks: self.unknown_chunks@,
            data_start_pos: self.data_start_pos,
        }
    }
}

/// The 80-bit extended-precision number that ten big-endian bytes hold,
/// as a `u32`: the number is rounded to the nearest double, and the
/// double is cut off towards zero and held to the range of `u32`.
pub uninterp spec fn extended_to_u32(bytes: Seq<u8>) -> u32;

/// Calls `extended::Extended::from_be_bytes` and `Extended::to_f64`, and
/// casts the double to `u32`. Both functions compute on the ten bytes
/// alone, so the result is a function of the bytes; nothing else is
/// claimed of it.
#[verifier::external_body]
fn sample_rate_from_extended(bytes: &[u8; 10]) -> (rate: u32)
    ensures
        rate == extended_to_u32(bytes@),
{
    extended::Extended::from_be_bytes(*bytes).to_f64() as u32
}

impl CommonChunk {
    /// The common chunk of a container that has none.
    pub open spec fn zero() -> CommonChunk {
        CommonChunk { num_channels: 0, num_sample_frames: 0, sample_size: 0, sample_rate: 0 }
    }
}

/// The number of bytes of the container header: the tag, the size and
/// the form type.
pub const FORM_HEADER_SIZE: usize = 12;

/// The number of bytes of a chunk header: the id and the size.
pub const CHUNK_HEADER_SIZE: usize = 8;

/// The number of bytes that are read of a common chunk, after its header.
pub const COMMON_CHUNK_SIZE: usize = 18;

/// The number of bytes that are read of a sound data chunk, after its header.
pub const SOUND_CHUNK_SIZE: usize = 8;

/// What the first twelve bytes of a container give: its declared size,
/// or why it is not read. The checks come in the order of the fields.
pub open spec fn spec_form_header(b: Seq<u8>) -> Result<u64, Error> {
    if b.len() < 4 {
        Err(Error::UnexpectedEof)
    } else if be_u32(b, 0) != FORM_TAG {
        Err(Error::Unsupported(Feature::AiffMarker))
    } else if b.len() < FORM_HEADER_SIZE {
        Err(Error::UnexpectedEof)
    } else if be_u32(b, 8) == AIFC_TAG {
        Err(Error::Unsupported(Feature::AiffCompressed))
    } else if be_u32(b, 8) != AIFF_TAG {
        Err(Error::Unsupported(Feature::AiffFormType))
    } else {
        Ok((be_u32(b, 4) + 8) as u64)
    }
}

/// The common chunk whose header lies at `pos`.
pub open spec fn common_at(b: Seq<u8>, pos: int) -> CommonChunk {
    CommonChunk {
        num_channels: be_i16(b, pos + 8) as i16,
        num_sample_frames: be_u32(b, pos + 10) as u32,
        sample_size: be_i16(b, pos + 14) as i16,
        sample_rate: extended_to_u32(b.subrange(pos + 16, pos + 26)),
    }
}

/// The leading fields of the sound data chunk whose header lies at `pos`.
pub open spec fn sound_at(b: Seq<u8>, pos: int) -> SoundChunk {
    SoundChunk { offset: be_u32(b, pos + 8) as u32, block_size: be_u32(b, pos + 12) as u32 }
}

/// The id and the size of the chunk whose header lies at `pos`.
pub open spec fn unknown_at(b: Seq<u8>, pos: int) -> UnknownChunk {
    UnknownChunk {
        id: [b[pos], b[pos + 1], b[pos + 2], b[pos + 3]],
        data_size: be_u32(b, pos + 4) as u32,
    }
}

/// What the walk over the chunks from `pos` on gives, after `common`
/// and `unknown` have been gathered.
///
/// At or after the declared end of the container the sound data chunk
/// is missing. A common chunk is read into its fixed fields. The sound
/// data chunk ends the walk: the data starts behind its two leading
/// fields, which both have to be 0. Any other chunk is noted with its
/// id and size, and the walk goes on exactly its declared size behind
/// its header.
pub open spec fn spec_chunks(
    b: Seq<u8>,
    pos: int,
    file_size: u64,
    common: CommonChunk,
    unknown: Seq<UnknownChunk>,
) -> Result<DirectoryView, Error>
    decreases
            (if pos < b.len() {
                b.len() - pos
            } else {
                0
            }),
{
    if pos >= file_size {
        Err(Error::DecodeError(Fault::AiffNoSoundChunk))
    } else if pos < 0 || pos + CHUNK_HEADER_SIZE > b.len() {
        Err(Error::UnexpectedEof)
    } else if be_u32(b, pos) == COMM_TAG {
        if pos + CHUNK_HEADER_SIZE + COMMON_CHUNK_SIZE > b.len() {
            Err(Error::UnexpectedEof)
        } else {
            spec_chunks(
                b,
                pos + CHUNK_HEADER_SIZE + COMMON_CHUNK_SIZE,
                file_size,
                common_at(b, pos),
                unknown,
            )
        }
    } else if be_u32(b, pos) == SSND_TAG {
        if pos + CHUNK_HEADER_SIZE + SOUND_CHUNK_SIZE > b.len() {
            Err(Error::UnexpectedEof)
        } else if sound_at(b, pos).offset != 0 || sound_at(b, pos).block_size != 0 {
            Err(Error::Unsupported(Feature::AiffBlockAlign))
        } else {
            Ok(
                DirectoryView {
                    file_size,
                    common_chunk: common,
                    sound_chunk: sound_at(b, pos),
                    unknown_chunks: unknown,
                    data_start_pos: (pos + CHUNK_HEADER_SIZE + SOUND_CHUNK_SIZE) as u64,
                },
            )
        }
    } else {
        spec_chunks(
            b,
            pos + CHUNK_HEADER_SIZE + be_u32(b, pos + 4),
            file_size,
            common,
            unknown.push(unknown_at(b, pos)),
        )
    }
}

/// What reading the directory of a container gives.
pub open spec fn spec_read_directory(b: Seq<u8>) -> Result<DirectoryView, Error> {
    match spec_form_header(b) {
        Err(e) => Err(e),
        Ok(file_size) => spec_chunks(
            b,
            FORM_HEADER_SIZE as int,
            file_size,
            CommonChunk::zero(),
            Seq::empty(),
        ),
    }
}

/// A chunk that is neither the common chunk nor the sound data chunk is
/// passed over by exactly its declared size: the walk from its header
/// gives what the walk gives that starts that many bytes behind the
/// header, at the id of the next chunk, with the chunk noted.
pub proof fn law_unknown_chunk_is_skipped(
    b: Seq<u8>,
    pos: int,
    file_size: u64,
    common: CommonChunk,
    unknown: Seq<UnknownChunk>,
)
    requires
        0 <= pos < file_size,
        pos + CHUNK_HEADER_SIZE <= b.len(),
        be_u32(b, pos) != COMM_TAG,
        be_u32(b, pos) != SSND_TAG,
    ensures
        spec_chunks(b, pos, file_size, common, unknown) == spec_chunks(
            b,
            pos + CHUNK_HEADER_SIZE + be_u32(b, pos + 4),
            file_size,
            common,
            unknown.push(
                UnknownChunk {
                    id: [b[pos], b[pos + 1], b[pos + 2], b[pos + 3]],
                    data_size: be_u32(b, pos + 4) as u32,
                },
            ),
        ),
{
}

/// Reads the container header: the declared size of the container.
pub fn read_form_header(bytes: &[u8]) -> (res: Result<u64, Error>)
    ensures
        res == spec_form_header(bytes@),
{
    if bytes.len() < 4 {
        return Err(Error::UnexpectedEof);
    }
    if read_be_u32(bytes, 0) != FORM_TAG {
        return Err(Error::Unsupported(Feature::AiffMarker));
    }
    if bytes.len() < FORM_HEADER_SIZE {
        return Err(Error::UnexpectedEof);
    }
    let form_data_size = read_be_u32(bytes, 4);
    let form_type = read_be_u32(bytes, 8);
    if form_type == AIFC_TAG {
        return Err(Error::Unsupported(Feature::AiffCompressed));
    }
    if form_type != AIFF_TAG {
        return Err(Error::Unsupported(Feature::AiffFormType));
    }
    Ok(form_data_size as u64 + 8)
}

/// Reads the fixed fields of the common chunk whose header lies at `pos`.
pub fn read_common_chunk(bytes: &[u8], pos: usize) -> (chunk: CommonChunk)
    requires
        pos + CHUNK_HEADER_SIZE + COMMON_CHUNK_SIZE <= bytes.len(),
    ensures
        chunk == common_at(bytes@, pos as int),
{
    let num_channels = read_be_i16(bytes, pos + 8);
    let num_sample_frames = read_be_u32(bytes, pos + 10);
    let sample_size = read_be_i16(bytes, pos + 14);
    let rate: [u8; 10] = [
        bytes[pos + 16],
        bytes[pos + 17],
        bytes[pos + 18],
        bytes[pos + 19],
        bytes[pos + 20],
        bytes[pos + 21],
        bytes[pos + 22],
        bytes[pos + 23],
        bytes[pos + 24],
        bytes[pos + 25],
    ];
    assert(rate@ =~= bytes@.subrange(pos + 16, pos + 26));
    CommonChunk {
        num_channels,
        num_sample_frames,
        sample_size,
        sample_rate: sample_rate_from_extended(&rate),
    }
}

/// Reads the directory of the container in `bytes`: the chunks up to
/// the sound data.
pub fn read_directory(bytes: &[u8]) -> (res: Result<Directory, Error>)
    ensures
        match spec_read_directory(bytes@) {
            Ok(view) => res matches Ok(directory) && directory@ == view,
            Err(e) => res matches Err(err) && err == e,
        },
{
    let file_size = match read_form_header(bytes) {
        Ok(file_size) => file_size,
        Err(e) => {
            return Err(e);
        },
    };
    // Only the common and the sound data chunk are needed; the others are noted.
    let mut common_chunk = CommonChunk {
        num_channels: 0,
        num_sample_frames: 0,
        sample_size: 0,
        sample_rate: 0,
    };
    let mut unknown_chunks: Vec<UnknownChunk> = Vec::new();
    let mut pos: u64 = FORM_HEADER_SIZE as u64;
    loop
        invariant
            file_size <= 0x1_0000_0007,
            spec_read_directory(bytes@) == spec_chunks(
                bytes@,
                pos as int,
                file_size,
                common_chunk,
                unknown_chunks@,
            ),
        decreases
                (if pos < bytes@.len() {
                    bytes@.len() - pos
                } else {
                    0
                }),
    {
        if pos >= file_size {
            return Err(Error::DecodeError(Fault::AiffNoSoundChunk));
        }
        if pos > bytes.len() as u64 || bytes.len() as u64 - pos < CHUNK_HEADER_SIZE as u64 {
            return Err(Error::UnexpectedEof);
        }
        let at = pos as usize;
        let left = bytes.len() - at;
        let id = read_be_u32(bytes, at);
        if id == COMM_TAG {
            if left < CHUNK_HEADER_SIZE + COMMON_CHUNK_SIZE {
                return Err(Error::UnexpectedEof);
            }
            common_chunk = read_common_chunk(bytes, at);
            pos = pos + (CHUNK_HEADER_SIZE + COMMON_CHUNK_SIZE) as u64;
        } else if id == SSND_TAG {
            if left < CHUNK_HEADER_SIZE + SOUND_CHUNK_SIZE {
                return Err(Error::UnexpectedEof);
            }
            let offset = read_be_u32(bytes, at + 8);
            let block_size = read_be_u32(bytes, at + 12);
            if offset != 0 || block_size != 0 {
                return Err(Error::Unsupported(Feature::AiffBlockAlign));
            }
            return Ok(
                Directory {
                    file_size,
                    common_chunk,
                    sound_chunk: SoundChunk { offset, block_size },
                    unknown_chunks,
                    data_start_pos: pos + (CHUNK_HEADER_SIZE + SOUND_CHUNK_SIZE) as u64,
                },
            );
        } else {
            let data_size = read_be_u32(bytes, at + 4);
            let chunk_id: [u8; 4] = [bytes[at], bytes[at + 1], bytes[at + 2], bytes[at + 3]];
            assert(chunk_id == [bytes@[at as int], bytes@[at + 1], bytes@[at + 2], bytes@[at + 3]])
                by {
                assert(chunk_id@ =~= [
                    bytes@[at as int],
                    bytes@[at + 1],
                    bytes@[at + 2],
                    bytes@[at + 3],
                ]@);
            }
            unknown_chunks.push(UnknownChunk { id: chunk_id, data_size });
            pos = pos + CHUNK_HEADER_SIZE as u64 + data_size as u64;
        }
    }
}

/// The number of bytes of a frame: two for each channel.
pub open spec fn frame_size(common: CommonChunk) -> u64 {
    (common.num_channels * SAMPLE_SIZE / 8) as u64
}

/// The codec parameters that a common chunk with a mask and the one
/// sample size gives.
pub open spec fn spec_codec_params(common: CommonChunk) -> CodecParameters {
    CodecParameters {
        codec: CodecType::PcmS16Be,
        sample_rate: Some(common.sample_rate),
        n_frames: Some(common.num_sample_frames as u64),
        bits_per_sample: Some(SAMPLE_SIZE as u32),
        bits_per_coded_sample: None,
        channels: Some(Channels::spec_from_bits(first_positions(common.num_channels as u16))),
        channel_layout: None,
        max_frames_per_packet: Some(AIFF_MAX_FRAMES_PER_PACKET),
        packet_data_integrity: true,
        frames_per_block: Some(1),
    }
}

/// How the sound data divides into packets: a block is one frame.
pub open spec fn spec_packet_info(common: CommonChunk) -> PacketInfo {
    PacketInfo {
        block_size: frame_size(common),
        frames_per_block: 1,
        max_blocks_per_packet: AIFF_MAX_FRAMES_PER_PACKET,
    }
}

/// The track and the packet layout that a common chunk gives: none for
/// a number of channels that has no mask, which is any but 1 to 32, nor
/// for a sample size other than 16 bits. The channels are looked at
/// first.
pub open spec fn spec_build_track(common: CommonChunk) -> Result<(Track, PacketInfo), Error> {
    if !(1 <= common.num_channels <= MAX_CHANNELS) {
        Err(Error::Unsupported(Feature::ChannelCount))
    } else if common.sample_size != SAMPLE_SIZE {
        Err(Error::Unsupported(Feature::AiffSampleSize))
    } else {
        Ok((Track { id: 0, codec_params: spec_codec_params(common) }, spec_packet_info(common)))
    }
}

/// Builds the one track of a container, and the layout of its packets,
/// from the common chunk.
pub fn build_track(common: &CommonChunk) -> (res: Result<(Track, PacketInfo), Error>)
    ensures
        res == spec_build_track(*common),
{
    if common.num_channels < 0 {
        return Err(Error::Unsupported(Feature::ChannelCount));
    }
    let count = common.num_channels as u16;
    let channels = match try_channel_count_to_mask(count) {
        Ok(channels) => channels,
        Err(e) => {
            return Err(e);
        },
    };
    proof {
        channels.lemma_mask_is_its_bits(first_positions(count));
    }
    if common.sample_size != SAMPLE_SIZE {
        return Err(Error::Unsupported(Feature::AiffSampleSize));
    }
    let sample_size: u64 = 16;
    let packet_info = PacketInfo {
        block_size: (count as u64) * sample_size / 8,
        frames_per_block: 1,
        max_blocks_per_packet: AIFF_MAX_FRAMES_PER_PACKET,
    };
    let max_frames_per_packet = packet_info.max_blocks_per_packet * packet_info.frames_per_block;
    let codec_params = CodecParameters {
        codec: CodecType::PcmS16Be,
        sample_rate: Some(common.sample_rate),
        n_frames: Some(common.num_sample_frames as u64),
        bits_per_sample: Some(SAMPLE_SIZE as u32),
        bits_per_coded_sample: None,
        channels: Some(channels),
        channel_layout: None,
        max_frames_per_packet: Some(max_frames_per_packet),
        packet_data_integrity: true,
        frames_per_block: Some(packet_info.frames_per_block),
    };
    Ok((Track::new(0, codec_params), packet_info))
}

/// A block is one frame, so the sound data holds no more frames than
/// bytes, and every timestamp fits into 64 bits.
pub proof fn lemma_frames_fit(common: CommonChunk, bounds: DataBounds)
    requires
        spec_build_track(common) is Ok,
    ensures
        spec_packet_info(common).cuts(bounds),
{
    let bs = spec_packet_info(common).block_size as int;
    lemma_div_is_ordered(0, bounds.len(), bs);
    lemma_fundamental_div_mod(bounds.len(), bs);
    lemma_mod_bound(bounds.len(), bs);
    lemma_mul_inequality(1, bs, bounds.len() / bs);
    assert(0int / bs == 0);
    assert(bs * (bounds.len() / bs) >= 1 * (bounds.len() / bs));
}

/// A view of a reader: its packet stream, its tracks and its directory.
pub struct AiffReaderView {
    pub demuxer: DemuxerView,
    pub tracks: Seq<Track>,
    pub directory: DirectoryView,
}

/// A demuxer for an AIFF container that is held in memory.
pub struct AiffReader {
    demuxer: Demuxer,
    tracks: Vec<Track>,
    directory: Directory,
}

impl View for AiffReader {
    type V = AiffReaderView;

    closed spec fn view(&self) -> AiffReaderView {
        AiffReaderView {
            demuxer: self.demuxer@,
            tracks: self.tracks@,
            directory: self.directory@,
        }
    }
}

/// The sound data of a container: from behind the leading fields of
/// the sound data chunk to the declared end of the container.
pub open spec fn data_bounds(directory: DirectoryView) -> DataBounds {
    DataBounds { start: directory.data_start_pos, end: directory.file_size }
}

/// What opening a container gives: the error of its directory if it
/// has one; else the error of its common chunk if it has one; else a
/// reader that stands at the first frame of the sound data, with the
/// one track of the container.
pub open spec fn spec_try_new(source: Seq<u8>) -> Result<AiffReaderView, Error> {
    match spec_read_directory(source) {
        Err(e) => Err(e),
        Ok(directory) => match spec_build_track(directory.common_chunk) {
            Err(e) => Err(e),
            Ok((track, info)) => Ok(
                AiffReaderView {
                    demuxer: DemuxerView {
                        source,
                        pos: directory.data_start_pos,
                        track_id: 0,
                        info,
                        bounds: data_bounds(directory),
                        exhausted: false,
                    },
                    tracks: seq![track],
                    directory,
                },
            ),
        },
    }
}

impl AiffReaderView {
    /// What holds of a reader from the time it is opened: it has one
    /// track, whose packets its packet stream hands out, and the packet
    /// stream is well formed.
    pub open spec fn wf(&self) -> bool {
        &&& self.demuxer.wf()
        &&& self.tracks.len() == 1
        &&& self.tracks[0].id == self.demuxer.track_id
    }
}

impl AiffReader {
    /// Opens a container: reads its directory, builds its track and
    /// stands at the first frame of the sound data. The sound data
    /// itself is not looked at.
    pub fn try_new(source: Vec<u8>) -> (res: Result<AiffReader, Error>)
        ensures
            match spec_try_new(source@) {
                Ok(view) => res matches Ok(reader) && reader@ == view && reader@.wf(),
                Err(e) => res matches Err(err) && err == e,
            },
    {
        let directory = match read_directory(source.as_slice()) {
            Ok(directory) => directory,
            Err(e) => {
                return Err(e);
            },
        };
        let (track, packet_info) = match build_track(&directory.common_chunk) {
            Ok(built) => built,
            Err(e) => {
                return Err(e);
            },
        };
        let bounds = DataBounds { start: directory.data_start_pos, end: directory.file_size };
        proof {
            lemma_frames_fit(directory.common_chunk, bounds);
        }
        let demuxer = Demuxer::new(source, 0, packet_info, bounds);
        let mut tracks = Vec::new();
        tracks.push(track);
        Ok(AiffReader { demuxer, tracks, directory })
    }

    /// Reads the next packet of the track.
    pub fn next_packet(&mut self) -> (res: Result<Packet, Error>)
        ensures
            old(self)@.wf() ==> final(self)@.wf(),
            final(self)@ == (AiffReaderView {
                demuxer: old(self)@.demuxer.after_next(),
                ..old(self)@
            }),
            match old(self)@.demuxer.next_plan() {
                Ok(plan) => res matches Ok(packet) && {
                    &&& packet.track_id == old(self)@.demuxer.track_id
                    &&& packet.ts == plan.ts
                    &&& packet.dur == plan.dur
                    &&& packet.data@ == old(self)@.demuxer.source.subrange(
                        plan.start as int,
                        plan.end(),
                    )
                },
                Err(e) => res == Err::<Packet, Error>(e),
            },
    {
        self.demuxer.next_packet()
    }

    /// Moves to the frame `ts`.
    pub fn seek(&mut self, ts: u64) -> (res: Result<SeekedTo, Error>)
        ensures
            old(self)@.wf() ==> final(self)@.wf(),
            final(self)@ == (AiffReaderView {
                demuxer: old(self)@.demuxer.after_seek(ts),
                ..old(self)@
            }),
            match old(self)@.demuxer.info.spec_plan_seek(old(self)@.demuxer.bounds, ts as int) {
                Ok(plan) => res == Ok::<SeekedTo, Error>(
                    SeekedTo {
                        track_id: old(self)@.demuxer.track_id,
                        required_ts: ts,
                        actual_ts: plan.actual_ts,
                    },
                ),
                Err(e) => res == Err::<SeekedTo, Error>(e),
            },
    {
        self.demuxer.seek(ts)
    }

    /// The tracks of the container: there is exactly one.
    pub fn tracks(&self) -> (tracks: &Vec<Track>)
        ensures
            tracks@ == self@.tracks,
    {
        &self.tracks
    }

    /// The directory of the container.
    pub fn directory(&self) -> (directory: &Directory)
        ensures
            directory@ == self@.directory,
    {
        &self.directory
    }

    /// The position in the source of the next byte that is handed out.
    pub fn pos(&self) -> (pos: u64)
        ensures
            pos == self@.demuxer.pos,
    {
        self.demuxer.pos()
    }

    /// Closes the reader and hands the source back.
    pub fn into_inner(self) -> (source: Vec<u8>)
        ensures
            source@ == self@.demuxer.source,
    {
        self.demuxer.into_inner()
    }
}

/// In a container whose sound data is as long as the common chunk
/// declares, the durations of all the packets, read from the start,
/// sum to the declared number of frames, which is also the number of
/// frames of the track.
pub proof fn law_durations_sum_to_declared_frames(source: Seq<u8>)
    requires
        spec_try_new(source) matches Ok(reader) && reader.demuxer.bounds.len()
            == reader.directory.common_chunk.num_sample_frames * frame_size(
            reader.directory.common_chunk,
        ),
    ensures
        spec_try_new(source) matches Ok(reader) && total_duration(reader.demuxer.remaining())
            == reader.directory.common_chunk.num_sample_frames && reader.tracks[0].codec_params.n_frames
            == Some(reader.directory.common_chunk.num_sample_frames as u64),
{
    let reader = spec_try_new(source)->Ok_0;
    let common = reader.directory.common_chunk;
    lemma_frames_fit(common, reader.demuxer.bounds);
    reader.demuxer.info.law_durations_sum_to_total(
        reader.demuxer.bounds,
        common.num_sample_frames as int,
    );
}

} // verus!
