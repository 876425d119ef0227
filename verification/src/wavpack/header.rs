//! The fixed-layout block header and its packed flag word.

use vstd::prelude::*;
use crate::bytes::{le_u16, le_u32, read_le_u16, read_le_u32};
use crate::errors::{Error, Feature};

verus! {

/// The number of bytes of a block header.
pub const HEADER_SIZE: usize = 32;

/// The two stream versions that are decoded.
pub const VERSION_LOW: u16 = 0x402;

pub const VERSION_HIGH: u16 = 0x410;

/// How the samples of a block are encoded.
#[derive(Clone, Copy, Debug, PartialEq, Eq, Structural)]
pub enum Encoding {
    /// Pulse-code modulation.
    Pcm,
    /// Direct stream digital.
    Dsd,
}

/// The subfields of the 32-bit flag word of a block header.
#[derive(Clone, Copy, Debug, PartialEq, Eq, Structural)]
pub struct Flags {
    /// Bits 0 and 1, as the upper bound of the bits per sample: 8, 16, 24 or 32.
    pub bits_per_sample: u32,
    /// Bit 2 clear: the block is stereo. Bit 2 set: mono.
    pub stereo: bool,
    /// Bit 3: hybrid mode, as opposed to lossless.
    pub hybrid_mode: bool,
    /// Bit 4: joint stereo, as opposed to true stereo.
    pub joint_stereo: bool,
    /// Bit 5: cross-channel decorrelation, as opposed to independent channels.
    pub cross_channel_decorrelation: bool,
    /// Bit 6: hybrid noise shaping, as opposed to a flat noise spectrum.
    pub hybrid_noise_shaping: bool,
    /// Bit 7: floating-point samples, as opposed to integers.
    pub floating_point_data: bool,
    /// Bit 8: extended-size integers.
    pub extended_size: bool,
    /// Bit 9 clear: the hybrid parameters control the noise level.
    /// Bit 9 set: they control the bit rate.
    pub hybrid_mode_params_control_noise_level: bool,
    /// Bit 10: the hybrid noise is balanced between the channels.
    pub hybrid_noise_balanced: bool,
    /// Bit 11: the block is the first of a multichannel sequence.
    pub first_block_in_sequence: bool,
    /// Bit 12: the block is the last of a multichannel sequence.
    pub last_block_in_sequence: bool,
    /// Bits 13 to 17: by how many places the decoded data is shifted left.
    pub data_left_shift: u32,
    /// Bits 18 to 22: the number of bits that the integers need, less one.
    pub max_magnitude: u32,
    /// Bits 23 to 26: the code of the sample rate; 15 stands for a rate
    /// that the header does not name.
    pub sample_rate: u32,
    /// Bit 28: the block ends with a checksum.
    pub contains_checksum: bool,
    /// Bit 29: IRR is used for negative hybrid noise shaping.
    pub irr: bool,
    /// Bit 30: the data is mono although the output is stereo.
    pub false_stereo: bool,
    /// Bit 31 clear: PCM. Bit 31 set: DSD.
    pub encoding: Encoding,
}

/// A decoded block header.
#[derive(Clone, Copy, Debug, PartialEq, Eq, Structural)]
pub struct Header {
    /// The size of the whole block in bytes: the size field plus 8.
    pub block_size: u64,
    /// The stream version.
    pub version: u16,
    /// The number of frames in the block; 0 marks a block without audio.
    pub block_samples: u32,
    /// The 40-bit index of the first frame of the block.
    pub block_index: u64,
    /// The 40-bit number of frames in the whole stream. It is present only
    /// in a block whose index is 0.
    pub total_samples: Option<u64>,
    /// The checksum of the block.
    pub crc: u32,
    /// The decoded flag word.
    pub flags: Flags,
}

/// Bit `index` of `word`.
pub open spec fn bit(word: u32, index: u32) -> bool {
    (word >> index) & 1 == 1
}

/// The bits of `word` that `mask` selects after a right shift by `shift`.
pub open spec fn field(word: u32, shift: u32, mask: u32) -> u32 {
    (word >> shift) & mask
}

/// The bits per sample that a two-bit depth code stands for.
pub open spec fn depth_of_code(code: u32) -> u32 {
    if code == 0 {
        8
    } else if code == 1 {
        16
    } else if code == 2 {
        24
    } else {
        32
    }
}

/// The subfields of a flag word.
pub open spec fn spec_decode_flags(word: u32) -> Flags {
    Flags {
        bits_per_sample: depth_of_code(field(word, 0, 0b11)),
        stereo: !bit(word, 2),
        hybrid_mode: bit(word, 3),
        joint_stereo: bit(word, 4),
        cross_channel_decorrelation: bit(word, 5),
        hybrid_noise_shaping: bit(word, 6),
        floating_point_data: bit(word, 7),
        extended_size: bit(word, 8),
        hybrid_mode_params_control_noise_level: !bit(word, 9),
        hybrid_noise_balanced: bit(word, 10),
        first_block_in_sequence: bit(word, 11),
        last_block_in_sequence: bit(word, 12),
        data_left_shift: field(word, 13, 0b1_1111),
        max_magnitude: field(word, 18, 0b1_1111),
        sample_rate: field(word, 23, 0b1111),
        contains_checksum: bit(word, 28),
        irr: bit(word, 29),
        false_stereo: bit(word, 30),
        encoding: if bit(word, 31) {
            Encoding::Dsd
        } else {
            Encoding::Pcm
        },
    }
}

/// The 40-bit value whose low 32 bits are `low` and whose high 8 bits are `high`.
pub open spec fn spec_combine_values(low: u32, high: u8) -> u64 {
    (high * 0x1_0000_0000 + low) as u64
}

/// Whether `b` starts with the four bytes `wvpk`.
pub open spec fn has_marker(b: Seq<u8>) -> bool {
    b.len() >= 4 && b[0] == 0x77 && b[1] == 0x76 && b[2] == 0x70 && b[3] == 0x6b
}

/// Whether `version` is one of the two stream versions that are decoded.
pub open spec fn version_supported(version: int) -> bool {
    version == VERSION_LOW || version == VERSION_HIGH
}

/// The header that 32 bytes with a good marker and version hold.
pub open spec fn header_of(b: Seq<u8>) -> Header {
    let block_index = spec_combine_values(le_u32(b, 16) as u32, b[10]);
    Header {
        block_size: (le_u32(b, 4) + 8) as u64,
        version: le_u16(b, 8) as u16,
        block_samples: le_u32(b, 20) as u32,
        block_index,
        total_samples: if block_index == 0 {
            Some(spec_combine_values(le_u32(b, 12) as u32, b[11]))
        } else {
            None
        },
        crc: le_u32(b, 28) as u32,
        flags: spec_decode_flags(le_u32(b, 24) as u32),
    }
}

/// What decoding the block header at the start of `b` gives. The checks
/// come in the order of the fields: a check on a field is made as soon
/// as the field is complete, before any later byte is asked for.
pub open spec fn spec_decode_header(b: Seq<u8>) -> Result<Header, Error> {
    if b.len() < 4 {
        Err(Error::UnexpectedEof)
    } else if !has_marker(b) {
        Err(Error::Unsupported(Feature::WavPackMarker))
    } else if b.len() < 10 {
        Err(Error::UnexpectedEof)
    } else if !version_supported(le_u16(b, 8)) {
        Err(Error::Unsupported(Feature::WavPackVersion))
    } else if b.len() < HEADER_SIZE {
        Err(Error::UnexpectedEof)
    } else {
        Ok(header_of(b))
    }
}

/// Reads bit `index` of `word`.
pub fn get_bit(word: u32, index: u32) -> (r: bool)
    requires
        index < 32,
    ensures
        r == bit(word, index),
{
    (word >> index) & 1 == 1
}

/// Reads the bits of `word` that `mask` selects after a right shift by `shift`.
pub fn get_field(word: u32, shift: u32, mask: u32) -> (r: u32)
    requires
        shift < 32,
    ensures
        r == field(word, shift, mask),
        r <= mask,
{
    let r = (word >> shift) & mask;
    assert((word >> shift) & mask <= mask) by (bit_vector);
    r
}

/// Joins the low 32 bits and the high 8 bits of a 40-bit field.
pub fn combine_values(u32_value: u32, u8_value: u8) -> (r: u64)
    ensures
        r == spec_combine_values(u32_value, u8_value),
        r == ((u8_value as u64) << 32) | (u32_value as u64),
        r < 0x100_0000_0000,
{
    let high: u64 = u8_value as u64;
    let low: u64 = u32_value as u64;
    assert(high * 0x1_0000_0000 + low == (high << 32) | low) by (bit_vector)
        requires
            high < 0x100,
            low < 0x1_0000_0000,
    ;
    high * 0x1_0000_0000 + low
}

/// The subfields of a flag word stay in the range of their bits: the
/// depth is one of four, the shift and the magnitude are below 32, and
/// the code of the sample rate is below 16.
pub proof fn lemma_flag_ranges(word: u32)
    ensures
        ({
            let flags = spec_decode_flags(word);
            &&& flags.bits_per_sample == 8 || flags.bits_per_sample == 16 || flags.bits_per_sample
                == 24 || flags.bits_per_sample == 32
            &&& flags.data_left_shift <= 31
            &&& flags.max_magnitude <= 31
            &&& flags.sample_rate <= 15
        }),
{
    assert((word >> 13u32) & 0b1_1111 <= 31) by (bit_vector);
    assert((word >> 18u32) & 0b1_1111 <= 31) by (bit_vector);
    assert((word >> 23u32) & 0b1111 <= 15) by (bit_vector);
}

/// Takes a flag word apart. The result is a function of the word alone,
/// and no word is refused: the depth code has two bits, and each of its
/// four values stands for a depth.
pub fn decode_flags(word: u32) -> (res: Result<Flags, Error>)
    ensures
        res == Ok::<Flags, Error>(spec_decode_flags(word)),
{
    let code = get_field(word, 0, 0b11);
    let bits_per_sample: u32 = match code {
        0 => 8,
        1 => 16,
        2 => 24,
        3 => 32,
        _ => {
            return Err(Error::Unsupported(Feature::WavPackBitDepth));
        },
    };
    let encoding = if get_bit(word, 31) {
        Encoding::Dsd
    } else {
        Encoding::Pcm
    };
    Ok(
        Flags {
            bits_per_sample,
            stereo: !get_bit(word, 2),
            hybrid_mode: get_bit(word, 3),
            joint_stereo: get_bit(word, 4),
            cross_channel_decorrelation: get_bit(word, 5),
            hybrid_noise_shaping: get_bit(word, 6),
            floating_point_data: get_bit(word, 7),
            extended_size: get_bit(word, 8),
            hybrid_mode_params_control_noise_level: !get_bit(word, 9),
            hybrid_noise_balanced: get_bit(word, 10),
            first_block_in_sequence: get_bit(word, 11),
            last_block_in_sequence: get_bit(word, 12),
            data_left_shift: get_field(word, 13, 0b1_1111),
            max_magnitude: get_field(word, 18, 0b1_1111),
            sample_rate: get_field(word, 23, 0b1111),
            contains_checksum: get_bit(word, 28),
            irr: get_bit(word, 29),
            false_stereo: get_bit(word, 30),
            encoding,
        },
    )
}

/// Decodes the block header at the start of `bytes`. Bytes after the
/// header are not looked at.
pub fn decode_header(bytes: &[u8]) -> (res: Result<Header, Error>)
    ensures
        res == spec_decode_header(bytes@),
{
    if bytes.len() < 4 {
        return Err(Error::UnexpectedEof);
    }
    if !(bytes[0] == 0x77 && bytes[1] == 0x76 && bytes[2] == 0x70 && bytes[3] == 0x6b) {
        return Err(Error::Unsupported(Feature::WavPackMarker));
    }
    if bytes.len() < 10 {
        return Err(Error::UnexpectedEof);
    }
    let ck_size = read_le_u32(bytes, 4);
    let version = read_le_u16(bytes, 8);
    if version != VERSION_LOW && version != VERSION_HIGH {
        return Err(Error::Unsupported(Feature::WavPackVersion));
    }
    if bytes.len() < HEADER_SIZE {
        return Err(Error::UnexpectedEof);
    }
    let block_index_u8 = bytes[10];
    let total_samples_u8 = bytes[11];
    let total_samples_u32 = read_le_u32(bytes, 12);
    let block_index_u32 = read_le_u32(bytes, 16);
    let block_samples = read_le_u32(bytes, 20);
    let block_index = combine_values(block_index_u32, block_index_u8);
    let total_samples = if block_index == 0 {
        Some(combine_values(total_samples_u32, total_samples_u8))
    } else {
        None
    };
    let word = read_le_u32(bytes, 24);
    let crc = read_le_u32(bytes, 28);
    let flags = match decode_flags(word) {
        Ok(flags) => flags,
        Err(e) => {
            return Err(e);
        },
    };
    Ok(
        Header {
            block_size: ck_size as u64 + 8,
            version,
            block_samples,
            block_index,
            total_samples,
            crc,
            flags,
        },
    )
}

/// Two words that agree on bit `index` give the same flag.
pub proof fn lemma_bit_reads_one_bit(a: u32, b: u32, index: u32)
    by (bit_vector)
    requires
        index < 32,
        a & (1u32 << index) == b & (1u32 << index),
    ensures
        ((a >> index) & 1 == 1) == ((b >> index) & 1 == 1),
{
}

/// Two words that agree on the bits that `mask` selects after a shift by
/// `shift` give the same field.
pub proof fn lemma_field_reads_its_bits(a: u32, b: u32, shift: u32, mask: u32)
    by (bit_vector)
    requires
        shift < 32,
        a & (mask << shift) == b & (mask << shift),
    ensures
        (a >> shift) & mask == (b >> shift) & mask,
{
}

/// Decoding the flag word is a function of the word, and each subfield
/// is a function of its own bits: two words that agree on the bit range
/// of a subfield give the same value for it, so the same word decoded
/// twice gives the same value for every subfield.
pub proof fn flag_word_determines_subfields(a: u32, b: u32)
    ensures
        a == b ==> spec_decode_flags(a) == spec_decode_flags(b),
        a & 0b11 == b & 0b11 ==> spec_decode_flags(a).bits_per_sample == spec_decode_flags(
            b,
        ).bits_per_sample,
        a & (1u32 << 2) == b & (1u32 << 2) ==> spec_decode_flags(a).stereo == spec_decode_flags(
            b,
        ).stereo,
        a & (1u32 << 3) == b & (1u32 << 3) ==> spec_decode_flags(a).hybrid_mode
            == spec_decode_flags(b).hybrid_mode,
        a & (1u32 << 4) == b & (1u32 << 4) ==> spec_decode_flags(a).joint_stereo
            == spec_decode_flags(b).joint_stereo,
        a & (1u32 << 5) == b & (1u32 << 5) ==> spec_decode_flags(a).cross_channel_decorrelation
            == spec_decode_flags(b).cross_channel_decorrelation,
        a & (1u32 << 6) == b & (1u32 << 6) ==> spec_decode_flags(a).hybrid_noise_shaping
            == spec_decode_flags(b).hybrid_noise_shaping,
        a & (1u32 << 7) == b & (1u32 << 7) ==> spec_decode_flags(a).floating_point_data
            == spec_decode_flags(b).floating_point_data,
        a & (1u32 << 8) == b & (1u32 << 8) ==> spec_decode_flags(a).extended_size
            == spec_decode_flags(b).extended_size,
        a & (1u32 << 9) == b & (1u32 << 9) ==> spec_decode_flags(
            a,
        ).hybrid_mode_params_control_noise_level == spec_decode_flags(
            b,
        ).hybrid_mode_params_control_noise_level,
        a & (1u32 << 10) == b & (1u32 << 10) ==> spec_decode_flags(a).hybrid_noise_balanced
            == spec_decode_flags(b).hybrid_noise_balanced,
        a & (1u32 << 11) == b & (1u32 << 11) ==> spec_decode_flags(a).first_block_in_sequence
            == spec_decode_flags(b).first_block_in_sequence,
        a & (1u32 << 12) == b & (1u32 << 12) ==> spec_decode_flags(a).last_block_in_sequence
            == spec_decode_flags(b).last_block_in_sequence,
        a & (0b1_1111u32 << 13) == b & (0b1_1111u32 << 13) ==> spec_decode_flags(
            a,
        ).data_left_shift == spec_decode_flags(b).data_left_shift,
        a & (0b1_1111u32 << 18) == b & (0b1_1111u32 << 18) ==> spec_decode_flags(a).max_magnitude
            == spec_decode_flags(b).max_magnitude,
        a & (0b1111u32 << 23) == b & (0b1111u32 << 23) ==> spec_decode_flags(a).sample_rate
            == spec_decode_flags(b).sample_rate,
        a & (1u32 << 28) == b & (1u32 << 28) ==> spec_decode_flags(a).contains_checksum
            == spec_decode_flags(b).contains_checksum,
        a & (1u32 << 29) == b & (1u32 << 29) ==> spec_decode_flags(a).irr == spec_decode_flags(
            b,
        ).irr,
        a & (1u32 << 30) == b & (1u32 << 30) ==> spec_decode_flags(a).false_stereo
            == spec_decode_flags(b).false_stereo,
        a & (1u32 << 31) == b & (1u32 << 31) ==> spec_decode_flags(a).encoding
            == spec_decode_flags(b).encoding,
{
    if a & 0b11 == b & 0b11 {
        assert(a & (0b11u32 << 0) == a & 0b11 && b & (0b11u32 << 0) == b & 0b11) by (bit_vector);
        lemma_field_reads_its_bits(a, b, 0, 0b11);
    }
    if a & (1u32 << 2) == b & (1u32 << 2) {
        lemma_bit_reads_one_bit(a, b, 2);
    }
    if a & (1u32 << 3) == b & (1u32 << 3) {
        lemma_bit_reads_one_bit(a, b, 3);
    }
    if a & (1u32 << 4) == b & (1u32 << 4) {
        lemma_bit_reads_one_bit(a, b, 4);
    }
    if a & (1u32 << 5) == b & (1u32 << 5) {
        lemma_bit_reads_one_bit(a, b, 5);
    }
    if a & (1u32 << 6) == b & (1u32 << 6) {
        lemma_bit_reads_one_bit(a, b, 6);
    }
    if a & (1u32 << 7) == b & (1u32 << 7) {
        lemma_bit_reads_one_bit(a, b, 7);
    }
    if a & (1u32 << 8) == b & (1u32 << 8) {
        lemma_bit_reads_one_bit(a, b, 8);
    }
    if a & (1u32 << 9) == b & (1u32 << 9) {
        lemma_bit_reads_one_bit(a, b, 9);
    }
    if a & (1u32 << 10) == b & (1u32 << 10) {
        lemma_bit_reads_one_bit(a, b, 10);
    }
    if a & (1u32 << 11) == b & (1u32 << 11) {
        lemma_bit_reads_one_bit(a, b, 11);
    }
    if a & (1u32 << 12) == b & (1u32 << 12) {
        lemma_bit_reads_one_bit(a, b, 12);
    }
    if a & (0b1_1111u32 << 13) == b & (0b1_1111u32 << 13) {
        lemma_field_reads_its_bits(a, b, 13, 0b1_1111);
    }
    if a & (0b1_1111u32 << 18) == b & (0b1_1111u32 << 18) {
        lemma_field_reads_its_bits(a, b, 18, 0b1_1111);
    }
    if a & (0b1111u32 << 23) == b & (0b1111u32 << 23) {
        lemma_field_reads_its_bits(a, b, 23, 0b1111);
    }
    if a & (1u32 << 28) == b & (1u32 << 28) {
        lemma_bit_reads_one_bit(a, b, 28);
    }
    if a & (1u32 << 29) == b & (1u32 << 29) {
        lemma_bit_reads_one_bit(a, b, 29);
    }
    if a & (1u32 << 30) == b & (1u32 << 30) {
        lemma_bit_reads_one_bit(a, b, 30);
    }
    if a & (1u32 << 31) == b & (1u32 << 31) {
        lemma_bit_reads_one_bit(a, b, 31);
    }
}

} // verus!
