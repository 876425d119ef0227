//! Channel masks and channel layouts.

use vstd::prelude::*;
use crate::errors::{Error, Feature};

verus! {

/// The largest number of channels that a mask can hold: one for each bit.
pub const MAX_CHANNELS: u16 = 32;

/// The number of channel positions that have a name.
pub const CHANNEL_POSITIONS: u16 = 26;

/// The mask of every channel position that has a name.
pub const ALL_POSITIONS: u32 = 0x03ff_ffff;

/// The bit of the front-left (or mono) channel.
pub const FRONT_LEFT: u32 = 0x0000_0001;

/// The bit of the front-right channel.
pub const FRONT_RIGHT: u32 = 0x0000_0002;

/// The bit of the front-centre channel.
pub const FRONT_CENTRE: u32 = 0x0000_0004;

/// The bit of the first low-frequency channel.
pub const LFE1: u32 = 0x0000_0008;

/// The bit of the rear-left channel.
pub const REAR_LEFT: u32 = 0x0000_0010;

/// The bit of the rear-right channel.
pub const REAR_RIGHT: u32 = 0x0000_0020;

/// A set of channel positions, one bit for each of 32 positions. The 26
/// lowest positions have a name, from front-left on; the six above them
/// are positions without a name.
#[derive(Clone, Copy, Debug, PartialEq, Eq, Structural)]
pub struct Channels {
    bits: u32,
}

/// A common arrangement of channels.
#[derive(Clone, Copy, Debug, PartialEq, Eq, Structural)]
pub enum Layout {
    /// One centre channel.
    Mono,
    /// Left and right.
    Stereo,
    /// Left, right and one low-frequency channel.
    TwoPointOne,
    /// Front left and right, front centre, rear left and right, and one
    /// low-frequency channel.
    FivePointOne,
}

/// The characteristics of a signal: its rate in hertz and its channels.
#[derive(Clone, Copy, Debug, PartialEq, Eq, Structural)]
pub struct SignalSpec {
    pub rate: u32,
    pub channels: Channels,
}

/// Whether `bits` sets no bit but those of positions that have a name.
pub open spec fn only_positions(bits: u32) -> bool {
    bits & !ALL_POSITIONS == 0
}

/// The mask of the first `count` channel positions.
pub open spec fn first_positions(count: u16) -> u32 {
    ((1u64 << (count as u64)) - 1) as u32
}

/// The mask of a layout.
pub open spec fn layout_bits(layout: Layout) -> u32 {
    match layout {
        Layout::Mono => FRONT_LEFT,
        Layout::Stereo => FRONT_LEFT | FRONT_RIGHT,
        Layout::TwoPointOne => FRONT_LEFT | FRONT_RIGHT | LFE1,
        Layout::FivePointOne => FRONT_LEFT | FRONT_RIGHT | FRONT_CENTRE | REAR_LEFT | REAR_RIGHT
            | LFE1,
    }
}

/// Calls `symphonia_core::audio::Channels::from_bits` and hands back the
/// bits of the mask it made. That function accepts `bits` exactly when
/// no bit outside the 26 defined channel flags is set, and the mask it
/// makes holds `bits` unchanged.
#[verifier::external_body]
fn channels_from_bits(bits: u32) -> (r: Option<u32>)
    ensures
        r == (if only_positions(bits) {
            Some(bits)
        } else {
            None
        }),
{
    match symphonia_core::audio::Channels::from_bits(bits) {
        Some(channels) => Some(channels.bits()),
        None => None,
    }
}

/// Calls `symphonia_core::audio::Layout::into_channels` and hands back
/// the bits of its mask: front-left for mono; with front-right for
/// stereo; with the first low-frequency channel for 2.1; and with front
/// centre and both rear channels for 5.1.
#[verifier::external_body]
fn layout_into_bits(layout: Layout) -> (bits: u32)
    ensures
        bits == layout_bits(layout),
{
    let outside = match layout {
        Layout::Mono => symphonia_core::audio::Layout::Mono,
        Layout::Stereo => symphonia_core::audio::Layout::Stereo,
        Layout::TwoPointOne => symphonia_core::audio::Layout::TwoPointOne,
        Layout::FivePointOne => symphonia_core::audio::Layout::FivePointOne,
    };
    outside.into_channels().bits()
}

impl View for Channels {
    type V = u32;

    closed spec fn view(&self) -> u32 {
        self.bits
    }
}

impl Channels {
    /// The mask with the bits `bits`.
    pub closed spec fn spec_from_bits(bits: u32) -> Channels {
        Channels { bits }
    }

    /// A mask is its bits: the mask made of `bits` is viewed as `bits`,
    /// and every mask is the one made of its view.
    pub proof fn lemma_mask_is_its_bits(self, bits: u32)
        ensures
            Self::spec_from_bits(bits)@ == bits,
            self@ == bits ==> self == Self::spec_from_bits(bits),
    {
    }

    /// The mask with the bits `bits`, unless one of them stands for a
    /// position without a name.
    pub fn from_bits(bits: u32) -> (r: Option<Channels>)
        ensures
            r is Some <==> only_positions(bits),
            r matches Some(channels) ==> channels@ == bits,
    {
        match channels_from_bits(bits) {
            Some(bits) => Some(Channels { bits }),
            None => None,
        }
    }

    /// The bits of the mask.
    pub fn bits(&self) -> (r: u32)
        ensures
            r == self@,
    {
        self.bits
    }

    /// Whether every position of the mask has a name.
    pub fn is_named(&self) -> (r: bool)
        ensures
            r == only_positions(self@),
    {
        channels_from_bits(self.bits).is_some()
    }
}

impl Layout {
    /// The channel mask of the layout.
    pub fn into_channels(self) -> (r: Channels)
        ensures
            r@ == layout_bits(self),
    {
        Channels { bits: layout_into_bits(self) }
    }
}

impl SignalSpec {
    /// The signal with the given rate and channels.
    pub fn new(rate: u32, channels: Channels) -> (r: SignalSpec)
        ensures
            r == (SignalSpec { rate, channels }),
    {
        SignalSpec { rate, channels }
    }

    /// The signal with the given rate and the channels of `layout`.
    pub fn new_with_layout(rate: u32, layout: Layout) -> (r: SignalSpec)
        ensures
            r.rate == rate,
            r.channels@ == layout_bits(layout),
    {
        SignalSpec { rate, channels: layout.into_channels() }
    }
}

/// The mask of the first `count` positions fits into 32 bits, and all
/// its positions have a name exactly when `count` is at most 26.
pub proof fn lemma_first_positions_named(count: u16)
    requires
        1 <= count <= MAX_CHANNELS,
    ensures
        only_positions(first_positions(count)) <==> count <= CHANNEL_POSITIONS,
        1 <= (1u64 << (count as u64)),
        (1u64 << (count as u64)) - 1 <= u32::MAX,
{
    let c: u64 = count as u64;
    assert(1 <= c <= 32 ==> (((((1u64 << c) - 1) as u32) & !0x03ff_ffffu32 == 0) <==> c <= 26))
        by (bit_vector);
    assert(1 <= c <= 32 ==> 1 <= (1u64 << c) && (1u64 << c) - 1 <= 0xffff_ffff) by (bit_vector);
}

/// In the mask of the first `count` positions, the bit of a position is
/// set exactly when the position is below `count`.
pub proof fn lemma_first_positions_bits(count: u16, position: u32)
    requires
        1 <= count <= MAX_CHANNELS,
        position < 32,
    ensures
        ((first_positions(count) >> position) & 1 == 1) <==> position < count,
{
    let c: u64 = count as u64;
    let p: u32 = position;
    assert(1 <= c <= 32 && p < 32 ==> (((((((1u64 << c) - 1) as u32) >> p) & 1) == 1) <==> (
    p as u64) < c)) by (bit_vector);
}

/// The mask of the first `count` channel positions.
///
/// A count of 1 to 32 gives the mask whose `count` lowest bits are set,
/// and no other. Every other count, 0 and those above 32, is refused as
/// unsupported.
pub fn try_channel_count_to_mask(count: u16) -> (res: Result<Channels, Error>)
    ensures
        1 <= count <= MAX_CHANNELS ==> (res matches Ok(channels) && channels@ == first_positions(
            count,
        )),
        !(1 <= count <= MAX_CHANNELS) ==> res == Err::<Channels, Error>(
            Error::Unsupported(Feature::ChannelCount),
        ),
{
    if count < 1 || count > MAX_CHANNELS {
        return Err(Error::Unsupported(Feature::ChannelCount));
    }
    proof {
        lemma_first_positions_named(count);
    }
    let wide: u64 = (1u64 << (count as u64)) - 1;
    Ok(Channels { bits: wide as u32 })
}

} // verus!
