//! Tracks, packets and the cutting of a data region into packets.

use vstd::prelude::*;
use vstd::arithmetic::div_mod::{
    lemma_div_by_multiple, lemma_div_is_ordered, lemma_fundamental_div_mod,
    lemma_hoist_over_denominator, lemma_mod_bound, lemma_small_mod,
};
use vstd::arithmetic::mul::{lemma_mul_inequality, lemma_mul_is_distributive_add_other_way};
use vstd::slice::{slice_subrange, slice_to_vec};
use crate::codecs::CodecParameters;
use crate::errors::{Error, Fault, SeekErrorKind};

verus! {

/// One independently coded stream of a container.
#[derive(Clone, Copy, Debug, PartialEq, Eq)]
pub struct Track {
    /// The number by which packets name the track.
    pub id: u32,
    /// The parameters of its codec.
    pub codec_params: CodecParameters,
}

/// A run of whole blocks of one track, as it is handed to a decoder.
#[derive(Debug, PartialEq, Eq)]
pub struct Packet {
    /// The track that the packet belongs to.
    pub track_id: u32,
    /// The timestamp of the first frame, in frames from the start of the data.
    pub ts: u64,
    /// The number of frames.
    pub dur: u64,
    /// The bytes of the blocks, as they lie in the source.
    pub data: Vec<u8>,
}

/// Where a seek has arrived.
#[derive(Clone, Copy, Debug, PartialEq, Eq, Structural)]
pub struct SeekedTo {
    /// The track that the timestamps refer to.
    pub track_id: u32,
    /// The timestamp that was asked for.
    pub required_ts: u64,
    /// The timestamp of the block boundary that was reached.
    pub actual_ts: u64,
}

/// How the data of a track divides into blocks and packets.
#[derive(Clone, Copy, Debug, PartialEq, Eq, Structural)]
pub struct PacketInfo {
    /// The number of bytes of a block.
    pub block_size: u64,
    /// The number of frames of a block.
    pub frames_per_block: u64,
    /// The largest number of blocks that go into one packet.
    pub max_blocks_per_packet: u64,
}

/// The bytes of the source that hold the data of a track: those from
/// `start` up to, but without, `end`.
#[derive(Clone, Copy, Debug, PartialEq, Eq, Structural)]
pub struct DataBounds {
    pub start: u64,
    pub end: u64,
}

/// Where a seek lands.
#[derive(Clone, Copy, Debug, PartialEq, Eq, Structural)]
pub struct SeekPlan {
    /// The position in the source of the block that holds the frame.
    pub pos: u64,
    /// The timestamp of the first frame of that block.
    pub actual_ts: u64,
}

/// The place and the timing of one packet.
#[derive(Clone, Copy, Debug, PartialEq, Eq, Structural)]
pub struct PacketPlan {
    /// The position of its first byte in the source.
    pub start: u64,
    /// The number of its bytes.
    pub len: u64,
    /// The timestamp of its first frame.
    pub ts: u64,
    /// The number of its frames.
    pub dur: u64,
}

impl Track {
    /// The track with the given number and parameters.
    pub fn new(id: u32, codec_params: CodecParameters) -> (r: Track)
        ensures
            r == (Track { id, codec_params }),
    {
        Track { id, codec_params }
    }
}

impl DataBounds {
    /// The number of bytes between the bounds.
    pub open spec fn len(&self) -> int {
        if self.start <= self.end {
            self.end - self.start
        } else {
            0
        }
    }
}

impl PacketPlan {
    /// The position after the last byte of the packet.
    pub open spec fn end(&self) -> int {
        self.start + self.len
    }
}

impl PacketInfo {
    /// The number of frames in the whole blocks of `data_len` bytes.
    pub open spec fn spec_get_frames(&self, data_len: int) -> int {
        (data_len / (self.block_size as int)) * self.frames_per_block
    }

    /// The number of whole blocks between `pos` and the end of the data.
    pub open spec fn blocks_left(&self, bounds: DataBounds, pos: int) -> int {
        if pos < bounds.end {
            (bounds.end - pos) / (self.block_size as int)
        } else {
            0
        }
    }

    /// The number of blocks of the packet that starts at `pos`.
    pub open spec fn blocks_in_packet(&self, bounds: DataBounds, pos: int) -> int {
        if self.blocks_left(bounds, pos) <= self.max_blocks_per_packet {
            self.blocks_left(bounds, pos)
        } else {
            self.max_blocks_per_packet as int
        }
    }

    /// The number of frames in the whole data region.
    pub open spec fn total_frames(&self, bounds: DataBounds) -> int {
        self.spec_get_frames(bounds.len())
    }

    /// Whether every timestamp of the data region fits into 64 bits.
    pub open spec fn fits(&self, bounds: DataBounds) -> bool {
        self.block_size > 0 ==> self.total_frames(bounds) <= u64::MAX
    }

    /// The packet that starts at `pos`: as many whole blocks as are left
    /// before the end of the data, but no more than a packet may hold.
    /// Its timestamp counts the frames of the whole blocks between the
    /// start of the data and `pos`. With no whole block left the stream
    /// has ended; a block size of 0 is a fault.
    pub open spec fn spec_plan_packet(&self, bounds: DataBounds, pos: int) -> Result<
        PacketPlan,
        Error,
    > {
        if self.block_size == 0 {
            Err(Error::DecodeError(Fault::ZeroBlockSize))
        } else if self.blocks_left(bounds, pos) == 0 {
            Err(Error::EndOfStream)
        } else {
            Ok(
                PacketPlan {
                    start: pos as u64,
                    len: (self.blocks_in_packet(bounds, pos) * self.block_size) as u64,
                    ts: self.spec_get_frames(pos - bounds.start) as u64,
                    dur: (self.blocks_in_packet(bounds, pos) * self.frames_per_block) as u64,
                },
            )
        }
    }

    /// Between the start of the data and a position before its end, and
    /// from there to the end, no more frames lie than in the whole
    /// region, and the blocks of a packet do not reach past the end.
    pub proof fn lemma_plan_in_range(&self, bounds: DataBounds, pos: int)
        requires
            self.block_size > 0,
            bounds.start <= pos < bounds.end,
        ensures
            0 <= self.blocks_in_packet(bounds, pos) <= self.blocks_left(bounds, pos),
            0 <= self.blocks_in_packet(bounds, pos) * self.block_size <= bounds.end - pos,
            0 <= self.blocks_in_packet(bounds, pos) * self.frames_per_block <= self.total_frames(
                bounds,
            ),
            0 <= self.spec_get_frames(pos - bounds.start) <= self.total_frames(bounds),
    {
        let bs = self.block_size as int;
        let fpb = self.frames_per_block as int;
        let left = self.blocks_left(bounds, pos);
        let n = self.blocks_in_packet(bounds, pos);
        let before = (pos - bounds.start) / bs;
        let all = (bounds.end - bounds.start) / bs;
        lemma_fundamental_div_mod(bounds.end - pos, bs);
        lemma_mod_bound(bounds.end - pos, bs);
        lemma_div_is_ordered(0, bounds.end - pos, bs);
        lemma_div_is_ordered(0, pos - bounds.start, bs);
        lemma_div_is_ordered(bounds.end - pos, bounds.end - bounds.start, bs);
        lemma_div_is_ordered(pos - bounds.start, bounds.end - bounds.start, bs);
        assert(0int / bs == 0);
        assert(0 <= n <= left <= all);
        assert(0 <= before <= all);
        assert(bs * left <= bounds.end - pos);
        lemma_mul_inequality(n, left, bs);
        lemma_mul_inequality(0, n, bs);
        assert(n * bs <= left * bs);
        assert(left * bs == bs * left) by (nonlinear_arith);
        lemma_mul_inequality(0, n, fpb);
        lemma_mul_inequality(n, all, fpb);
        lemma_mul_inequality(0, before, fpb);
        lemma_mul_inequality(before, all, fpb);
    }

    /// The number of frames in the whole blocks of `data_len` bytes.
    pub fn get_frames(&self, data_len: u64) -> (frames: u64)
        requires
            self.block_size > 0,
            self.spec_get_frames(data_len as int) <= u64::MAX,
        ensures
            frames == self.spec_get_frames(data_len as int),
    {
        let blocks = data_len / self.block_size;
        proof {
            lemma_div_is_ordered(0, data_len as int, self.block_size as int);
            assert(0int / (self.block_size as int) == 0);
            lemma_mul_inequality(0, blocks as int, self.frames_per_block as int);
        }
        blocks * self.frames_per_block
    }

    /// The number of frames in the whole blocks of `data_len` bytes, if
    /// the block size is not 0 and the number fits into 64 bits.
    pub fn try_get_frames(&self, data_len: u64) -> (frames: Option<u64>)
        ensures
            frames is Some <==> self.block_size > 0 && self.spec_get_frames(data_len as int)
                <= u64::MAX,
            frames matches Some(f) ==> f == self.spec_get_frames(data_len as int),
    {
        if self.block_size == 0 {
            return None;
        }
        let blocks = data_len / self.block_size;
        blocks.checked_mul(self.frames_per_block)
    }

    /// Plans the packet that starts at `pos`.
    pub fn plan_packet(&self, bounds: &DataBounds, pos: u64) -> (res: Result<PacketPlan, Error>)
        requires
            bounds.start <= pos,
            self.fits(*bounds),
        ensures
            res == self.spec_plan_packet(*bounds, pos as int),
    {
        if self.block_size == 0 {
            return Err(Error::DecodeError(Fault::ZeroBlockSize));
        }
        let num_blocks_left = if pos < bounds.end {
            (bounds.end - pos) / self.block_size
        } else {
            0
        };
        if num_blocks_left == 0 {
            return Err(Error::EndOfStream);
        }
        let blocks_per_packet = if num_blocks_left <= self.max_blocks_per_packet {
            num_blocks_left
        } else {
            self.max_blocks_per_packet
        };
        proof {
            self.lemma_plan_in_range(*bounds, pos as int);
        }
        let dur = blocks_per_packet * self.frames_per_block;
        let len = blocks_per_packet * self.block_size;
        let ts = self.get_frames(pos - bounds.start);
        Ok(PacketPlan { start: pos, len, ts, dur })
    }
}

/// The sum of the durations of a run of packets.
pub open spec fn total_duration(run: Seq<PacketPlan>) -> int
    decreases run.len(),
{
    if run.len() == 0 {
        0
    } else {
        run[0].dur + total_duration(run.drop_first())
    }
}

impl PacketInfo {
    /// The number of whole blocks in the data region.
    pub open spec fn total_blocks(&self, bounds: DataBounds) -> int {
        bounds.len() / (self.block_size as int)
    }

    /// Whether `pos` lies a whole number of blocks after the start of the data.
    pub open spec fn aligned(&self, bounds: DataBounds, pos: int) -> bool {
        bounds.start <= pos && (pos - bounds.start) % (self.block_size as int) == 0
    }

    /// The number of blocks of the packet that starts after `k` blocks.
    pub open spec fn blocks_at(&self, bounds: DataBounds, k: int) -> int {
        if self.total_blocks(bounds) - k <= self.max_blocks_per_packet {
            self.total_blocks(bounds) - k
        } else {
            self.max_blocks_per_packet as int
        }
    }

    /// The packet that starts after `k` blocks of the data.
    pub open spec fn plan_at_block(&self, bounds: DataBounds, k: int) -> PacketPlan {
        PacketPlan {
            start: (bounds.start + k * self.block_size) as u64,
            len: (self.blocks_at(bounds, k) * self.block_size) as u64,
            ts: (k * self.frames_per_block) as u64,
            dur: (self.blocks_at(bounds, k) * self.frames_per_block) as u64,
        }
    }

    /// The packets that follow one another from the block `k` to the end
    /// of the stream.
    pub open spec fn packets_from_block(&self, bounds: DataBounds, k: int) -> Seq<PacketPlan>
        decreases self.total_blocks(bounds) - k,
    {
        if self.max_blocks_per_packet > 0 && 0 <= k < self.total_blocks(bounds) {
            seq![self.plan_at_block(bounds, k)] + self.packets_from_block(
                bounds,
                k + self.blocks_at(bounds, k),
            )
        } else {
            Seq::empty()
        }
    }

    /// The packets that a reader at `pos` hands out, one after the other,
    /// until the stream has ended.
    pub open spec fn packets_from(&self, bounds: DataBounds, pos: int) -> Seq<PacketPlan> {
        self.packets_from_block(bounds, (pos - bounds.start) / (self.block_size as int))
    }

    /// At a position that lies `k` whole blocks after the start of the
    /// data, the packet is the one that starts after `k` blocks, and the
    /// stream has ended when no block is left.
    pub proof fn lemma_plan_at_block(&self, bounds: DataBounds, k: int)
        requires
            self.block_size > 0,
            0 <= k,
        ensures
            self.spec_plan_packet(bounds, bounds.start + k * self.block_size) == (if k
                < self.total_blocks(bounds) {
                Ok::<PacketPlan, Error>(self.plan_at_block(bounds, k))
            } else {
                Err::<PacketPlan, Error>(Error::EndOfStream)
            }),
            (bounds.start + k * self.block_size - bounds.start) / (self.block_size as int) == k,
            self.aligned(bounds, bounds.start + k * self.block_size),
    {
        let bs = self.block_size as int;
        let pos = bounds.start + k * bs;
        let all = self.total_blocks(bounds);
        lemma_mul_inequality(0, k, bs);
        assert(0 * bs == 0);
        lemma_div_by_multiple(k, bs);
        assert(pos - bounds.start == k * bs);
        lemma_fundamental_div_mod(k * bs, bs);
        assert(bs * k == k * bs) by (nonlinear_arith);
        assert((k * bs) % bs == 0);
        lemma_div_is_ordered(0, bounds.len(), bs);
        assert(0int / bs == 0);
        if pos < bounds.end {
            assert(bounds.len() == bounds.end - bounds.start);
            lemma_hoist_over_denominator(bounds.end - bounds.start, -k, bs as nat);
            assert((-k) * bs == -(k * bs)) by (nonlinear_arith);
            assert(self.blocks_left(bounds, pos) == all - k);
            lemma_div_is_ordered(0, bounds.end - pos, bs);
        } else {
            lemma_div_is_ordered(bounds.len(), k * bs, bs);
            assert(all <= k);
        }
    }

    /// What holds of the run of packets from the block `k` on.
    proof fn lemma_run(&self, bounds: DataBounds, k: int)
        requires
            self.block_size > 0,
            self.max_blocks_per_packet > 0,
            self.fits(bounds),
            0 <= k <= self.total_blocks(bounds),
        ensures
            ({
                let run = self.packets_from_block(bounds, k);
                let all = self.total_blocks(bounds);
                &&& total_duration(run) == (all - k) * self.frames_per_block
                &&& k < all <==> run.len() > 0
                &&& run.len() > 0 ==> run[0] == self.plan_at_block(bounds, k) && run[0].start
                    == bounds.start + k * self.block_size && run[0].ts == k
                    * self.frames_per_block && run.last().end() == bounds.start + all
                    * self.block_size
                &&& forall|i: int|
                    0 <= i < run.len() ==> (#[trigger] run[i]).ts >= k * self.frames_per_block
                        && run[i].ts + run[i].dur <= all * self.frames_per_block && run[i].len
                        > 0 && run[i].start >= bounds.start + k * self.block_size
                        && run[i].end() <= bounds.start + all * self.block_size
                &&& forall|i: int|
                    0 <= i < run.len() - 1 ==> (#[trigger] run[i + 1]).start == run[i].end()
                        && run[i + 1].ts == run[i].ts + run[i].dur
            }),
        decreases self.total_blocks(bounds) - k,
    {
        let bs = self.block_size as int;
        let fpb = self.frames_per_block as int;
        let all = self.total_blocks(bounds);
        let run = self.packets_from_block(bounds, k);
        lemma_fundamental_div_mod(bounds.len(), bs);
        lemma_mod_bound(bounds.len(), bs);
        assert(bs * all <= bounds.len());
        assert(all * bs == bs * all) by (nonlinear_arith);
        assert(all * fpb <= u64::MAX);
        if k < all {
            let n = self.blocks_at(bounds, k);
            let first = self.plan_at_block(bounds, k);
            let rest = self.packets_from_block(bounds, k + n);
            assert(1 <= n <= all - k);
            self.lemma_run(bounds, k + n);
            assert(run == seq![first] + rest);
            assert(run.drop_first() =~= rest);
            assert(run[0] == first);
            // The quantities of the first packet stay within 64 bits.
            lemma_mul_inequality(0, k, bs);
            lemma_mul_inequality(k, all, bs);
            lemma_mul_inequality(1, n, bs);
            lemma_mul_inequality(n, all, bs);
            lemma_mul_inequality(0, k, fpb);
            lemma_mul_inequality(k, all, fpb);
            lemma_mul_inequality(0, n, fpb);
            lemma_mul_inequality(n, all, fpb);
            lemma_mul_inequality(k + n, all, fpb);
            lemma_mul_inequality(k + n, all, bs);
            lemma_mul_is_distributive_add_other_way(bs, k, n);
            lemma_mul_is_distributive_add_other_way(fpb, k, n);
            lemma_mul_is_distributive_add_other_way(fpb, all - k - n, n);
            assert(0 * bs == 0 && 0 * fpb == 0 && 1 * bs == bs);
            assert(first.start == bounds.start + k * bs);
            assert(first.len == n * bs);
            assert(first.ts == k * fpb);
            assert(first.dur == n * fpb);
            assert(first.end() == bounds.start + (k + n) * bs);
            assert(total_duration(run) == first.dur + total_duration(rest));
            assert((all - k - n) * fpb + n * fpb == (all - k) * fpb);
            if rest.len() > 0 {
                assert(run.last() == rest.last());
                assert(run[1] == rest[0]);
            } else {
                assert(k + n == all);
                assert(run.last() == first);
            }
            assert forall|i: int| 0 <= i < run.len() implies (#[trigger] run[i]).ts >= k * fpb
                && run[i].ts + run[i].dur <= all * fpb && run[i].len > 0 && run[i].start
                >= bounds.start + k * bs && run[i].end() <= bounds.start + all * bs by {
                if i > 0 {
                    assert(run[i] == rest[i - 1]);
                }
            }
            assert forall|i: int| 0 <= i < run.len() - 1 implies (#[trigger] run[i + 1]).start
                == run[i].end() && run[i + 1].ts == run[i].ts + run[i].dur by {
                if i > 0 {
                    assert(run[i] == rest[i - 1]);
                    assert(run[i + 1] == rest[i - 1 + 1]);
                }
            }
        } else {
            assert(run.len() == 0);
            assert((all - k) * fpb == 0);
        }
    }

    /// Whether the packets of the data region are well defined: blocks
    /// and packets are not empty, and the timestamps fit into 64 bits.
    pub open spec fn cuts(&self, bounds: DataBounds) -> bool {
        &&& self.block_size > 0
        &&& self.max_blocks_per_packet > 0
        &&& self.fits(bounds)
    }

    /// A position that lies whole blocks after the start of the data lies
    /// as many blocks after it as the division says.
    proof fn lemma_aligned_block(&self, bounds: DataBounds, pos: int)
        requires
            self.block_size > 0,
            self.aligned(bounds, pos),
        ensures
            0 <= (pos - bounds.start) / (self.block_size as int),
            pos == bounds.start + ((pos - bounds.start) / (self.block_size as int))
                * self.block_size,
    {
        let bs = self.block_size as int;
        let k = (pos - bounds.start) / bs;
        lemma_fundamental_div_mod(pos - bounds.start, bs);
        lemma_div_is_ordered(0, pos - bounds.start, bs);
        assert(0int / bs == 0);
        assert(bs * k == k * bs) by (nonlinear_arith);
    }

    /// The run of packets from a position starts with the packet that is
    /// planned there and goes on with the run from the end of that
    /// packet; where the stream has ended, the run is empty.
    pub proof fn lemma_first_packet(&self, bounds: DataBounds, pos: int)
        requires
            self.cuts(bounds),
            self.aligned(bounds, pos),
        ensures
            match self.spec_plan_packet(bounds, pos) {
                Ok(plan) => {
                    &&& self.packets_from(bounds, pos) == seq![plan] + self.packets_from(
                        bounds,
                        plan.end(),
                    )
                    &&& self.aligned(bounds, plan.end())
                    &&& plan.start == pos
                    &&& plan.len > 0
                    &&& plan.end() <= bounds.end
                    &&& plan.ts + plan.dur <= self.total_frames(bounds)
                },
                Err(e) => e == Error::EndOfStream && self.packets_from(bounds, pos).len() == 0,
            },
    {
        let bs = self.block_size as int;
        let k = (pos - bounds.start) / bs;
        let all = self.total_blocks(bounds);
        self.lemma_aligned_block(bounds, pos);
        self.lemma_plan_at_block(bounds, k);
        if k < all {
            let n = self.blocks_at(bounds, k);
            let plan = self.plan_at_block(bounds, k);
            self.lemma_run(bounds, k);
            self.lemma_plan_at_block(bounds, k + n);
            lemma_mul_is_distributive_add_other_way(bs, k, n);
            lemma_mul_inequality(1, n, bs);
            lemma_mul_inequality(k + n, all, bs);
            lemma_mul_inequality(0, k, bs);
            assert(0 * bs == 0 && 1 * bs == bs);
            lemma_fundamental_div_mod(bounds.len(), bs);
            lemma_mod_bound(bounds.len(), bs);
            assert(all * bs == bs * all) by (nonlinear_arith);
            assert(plan.start == bounds.start + k * bs);
            assert(plan.len == n * bs);
            assert(plan.end() == bounds.start + (k + n) * bs);
            let run = self.packets_from_block(bounds, k);
            assert(run[0] == plan);
        } else {
            assert(self.packets_from_block(bounds, k).len() == 0);
        }
    }

    /// In the run of packets from a position, a later packet starts where
    /// the packets before it end, in bytes and in frames.
    proof fn lemma_run_ordered(&self, bounds: DataBounds, k: int, i: int, j: int)
        requires
            self.cuts(bounds),
            0 <= k <= self.total_blocks(bounds),
            0 <= i < j < self.packets_from_block(bounds, k).len(),
        ensures
            self.packets_from_block(bounds, k)[i].end() <= self.packets_from_block(
                bounds,
                k,
            )[j].start,
            self.packets_from_block(bounds, k)[i].ts + self.packets_from_block(bounds, k)[i].dur
                <= self.packets_from_block(bounds, k)[j].ts,
        decreases j - i,
    {
        let run = self.packets_from_block(bounds, k);
        self.lemma_run(bounds, k);
        if i + 1 < j {
            self.lemma_run_ordered(bounds, k, i + 1, j);
            assert(run[i + 1].start == run[i].end());
        } else {
            assert(run[i + 1].start == run[i].end());
        }
    }

    /// The timestamps of the packets of a track never decrease: each
    /// packet starts, in frames, where the one before it ended.
    pub proof fn law_timestamps_never_decrease(&self, bounds: DataBounds, pos: int)
        requires
            self.cuts(bounds),
            self.aligned(bounds, pos),
        ensures
            ({
                let run = self.packets_from(bounds, pos);
                &&& forall|i: int, j: int|
                    0 <= i <= j < run.len() ==> (#[trigger] run[i]).ts <= (#[trigger] run[j]).ts
                &&& forall|i: int|
                    0 <= i < run.len() - 1 ==> (#[trigger] run[i + 1]).ts == run[i].ts
                        + run[i].dur
                &&& run.len() > 0 ==> run[0].ts == self.spec_get_frames(pos - bounds.start)
            }),
    {
        let bs = self.block_size as int;
        let k = (pos - bounds.start) / bs;
        let all = self.total_blocks(bounds);
        let run = self.packets_from(bounds, pos);
        self.lemma_aligned_block(bounds, pos);
        if k <= all {
            self.lemma_run(bounds, k);
            assert forall|i: int, j: int| 0 <= i <= j < run.len() implies (#[trigger] run[i]).ts
                <= (#[trigger] run[j]).ts by {
                if i < j {
                    self.lemma_run_ordered(bounds, k, i, j);
                }
            }
        }
    }

    /// The packets of a track lie one behind the other in the source:
    /// the first starts at the position of the reader, each later one
    /// starts at the byte where the one before it ended, none is empty,
    /// so no two overlap, and after the last less than a block is left.
    pub proof fn law_packets_are_contiguous(&self, bounds: DataBounds, pos: int)
        requires
            self.cuts(bounds),
            self.aligned(bounds, pos),
        ensures
            ({
                let run = self.packets_from(bounds, pos);
                &&& run.len() > 0 ==> run[0].start == pos
                &&& forall|i: int|
                    0 <= i < run.len() - 1 ==> (#[trigger] run[i + 1]).start == run[i].end()
                &&& forall|i: int| 0 <= i < run.len() ==> (#[trigger] run[i]).len > 0
                &&& forall|i: int, j: int|
                    0 <= i < j < run.len() ==> (#[trigger] run[i]).end() <= (
                    #[trigger] run[j]).start
                &&& run.len() > 0 ==> run.last().end() <= bounds.end && bounds.end
                    - run.last().end() < self.block_size
            }),
    {
        let bs = self.block_size as int;
        let k = (pos - bounds.start) / bs;
        let all = self.total_blocks(bounds);
        let run = self.packets_from(bounds, pos);
        self.lemma_aligned_block(bounds, pos);
        if k <= all {
            self.lemma_run(bounds, k);
            lemma_fundamental_div_mod(bounds.len(), bs);
            lemma_mod_bound(bounds.len(), bs);
            assert(all * bs == bs * all) by (nonlinear_arith);
            assert forall|i: int, j: int| 0 <= i < j < run.len() implies (#[trigger] run[i]).end()
                <= (#[trigger] run[j]).start by {
                self.lemma_run_ordered(bounds, k, i, j);
            }
        }
    }

    /// The durations of all the packets of a track, read from the start
    /// of its data, sum to the number of frames in the whole blocks of
    /// the data. Where the data is `blocks` blocks long, that is the
    /// number of frames that `blocks` blocks hold.
    pub proof fn law_durations_sum_to_total(&self, bounds: DataBounds, blocks: int)
        requires
            self.cuts(bounds),
            bounds.len() == blocks * self.block_size,
        ensures
            total_duration(self.packets_from(bounds, bounds.start as int)) == self.total_frames(
                bounds,
            ),
            self.total_frames(bounds) == blocks * self.frames_per_block,
    {
        let bs = self.block_size as int;
        assert(0int / bs == 0);
        lemma_div_is_ordered(0, bounds.len(), bs);
        self.lemma_run(bounds, 0);
        if blocks >= 0 {
            lemma_div_by_multiple(blocks, bs);
        } else {
            lemma_mul_inequality(blocks, -1, bs);
            assert((-1) * bs == -bs);
        }
    }
}

impl PacketInfo {
    /// Where a seek to the frame `ts` lands: at the start of the block
    /// that holds the frame. A frame at or after the end of the data is
    /// out of range, and a block size of 0 is a fault.
    pub open spec fn spec_plan_seek(&self, bounds: DataBounds, ts: int) -> Result<
        SeekPlan,
        Error,
    > {
        if self.block_size == 0 {
            Err(Error::DecodeError(Fault::ZeroBlockSize))
        } else if ts >= self.total_frames(bounds) {
            Err(Error::SeekError(SeekErrorKind::OutOfRange))
        } else {
            Ok(
                SeekPlan {
                    pos: (bounds.start + (ts / (self.frames_per_block as int))
                        * self.block_size) as u64,
                    actual_ts: ((ts / (self.frames_per_block as int))
                        * self.frames_per_block) as u64,
                },
            )
        }
    }

    /// A seek to a frame of the data lands on a block boundary inside the
    /// data, at or before the frame and less than a block before it, and
    /// the packet that is read there starts with the timestamp that the
    /// seek reports.
    pub proof fn lemma_seek_lands_on_block(&self, bounds: DataBounds, ts: int)
        requires
            self.block_size > 0,
            self.fits(bounds),
            0 <= ts < self.total_frames(bounds),
        ensures
            self.frames_per_block > 0,
            self.spec_plan_seek(bounds, ts) matches Ok(plan) && {
                &&& self.aligned(bounds, plan.pos as int)
                &&& bounds.start <= plan.pos < bounds.end
                &&& plan.pos == bounds.start + (ts / (self.frames_per_block as int))
                    * self.block_size
                &&& plan.actual_ts == (ts / (self.frames_per_block as int))
                    * self.frames_per_block
                &&& plan.actual_ts <= ts < plan.actual_ts + self.frames_per_block
                &&& self.spec_get_frames(plan.pos - bounds.start) == plan.actual_ts
                &&& self.blocks_left(bounds, plan.pos as int) > 0
            },
    {
        let bs = self.block_size as int;
        let fpb = self.frames_per_block as int;
        let all = self.total_blocks(bounds);
        assert(0int / bs == 0);
        lemma_div_is_ordered(0, bounds.len(), bs);
        assert(fpb > 0) by {
            if fpb == 0 {
                assert(all * 0 == 0);
            }
        }
        let block = ts / fpb;
        lemma_fundamental_div_mod(ts, fpb);
        lemma_mod_bound(ts, fpb);
        lemma_div_is_ordered(0, ts, fpb);
        assert(0int / fpb == 0);
        assert(fpb * block == block * fpb) by (nonlinear_arith);
        assert(block < all) by {
            if block >= all {
                lemma_mul_inequality(all, block, fpb);
            }
        }
        lemma_fundamental_div_mod(bounds.len(), bs);
        lemma_mod_bound(bounds.len(), bs);
        assert(all * bs == bs * all) by (nonlinear_arith);
        lemma_mul_inequality(block + 1, all, bs);
        lemma_mul_inequality(0, block, bs);
        lemma_mul_is_distributive_add_other_way(bs, block, 1);
        assert(0 * bs == 0 && 1 * bs == bs);
        lemma_mul_inequality(block, all, fpb);
        self.lemma_plan_at_block(bounds, block);
    }

    /// Plans a seek to the frame `ts`.
    pub fn plan_seek(&self, bounds: &DataBounds, ts: u64) -> (res: Result<SeekPlan, Error>)
        requires
            self.fits(*bounds),
        ensures
            res == self.spec_plan_seek(*bounds, ts as int),
    {
        if self.block_size == 0 {
            return Err(Error::DecodeError(Fault::ZeroBlockSize));
        }
        let data_len = if bounds.start <= bounds.end {
            bounds.end - bounds.start
        } else {
            0
        };
        let total = self.get_frames(data_len);
        if ts >= total {
            return Err(Error::SeekError(SeekErrorKind::OutOfRange));
        }
        proof {
            self.lemma_seek_lands_on_block(*bounds, ts as int);
        }
        let block = ts / self.frames_per_block;
        Ok(
            SeekPlan {
                pos: bounds.start + block * self.block_size,
                actual_ts: block * self.frames_per_block,
            },
        )
    }
}

/// A view of a demuxer: what it reads from, where it stands and how it
/// cuts packets.
pub struct DemuxerView {
    /// The bytes of the source.
    pub source: Seq<u8>,
    /// The position of the next byte to hand out.
    pub pos: u64,
    /// The number of the track of the packets.
    pub track_id: u32,
    /// How the data divides into blocks and packets.
    pub info: PacketInfo,
    /// Where the data lies in the source.
    pub bounds: DataBounds,
    /// Whether the end of the stream has been reported.
    pub exhausted: bool,
}

/// The packet stream of the one track of a container that is held in
/// memory. A demuxer is open from the time it is made. It hands out
/// packets until the data has ended; from then on it is exhausted and
/// reports the end of the stream without looking at the source again,
/// until a seek succeeds. It is closed by taking the source out of it,
/// which can be done at any time.
pub struct Demuxer {
    source: Vec<u8>,
    pos: u64,
    track_id: u32,
    info: PacketInfo,
    bounds: DataBounds,
    exhausted: bool,
}

impl View for Demuxer {
    type V = DemuxerView;

    closed spec fn view(&self) -> DemuxerView {
        DemuxerView {
            source: self.source@,
            pos: self.pos,
            track_id: self.track_id,
            info: self.info,
            bounds: self.bounds,
            exhausted: self.exhausted,
        }
    }
}

impl DemuxerView {
    /// The invariant of a demuxer: its packets are well defined, and it
    /// stands on a block boundary at or after the start of the data.
    pub open spec fn wf(&self) -> bool {
        &&& self.info.cuts(self.bounds)
        &&& self.info.aligned(self.bounds, self.pos as int)
    }

    /// The packet that the next read cuts, or why none is cut: the end
    /// of the stream once it has been reported or no whole block is
    /// left, and an unexpected end of the input where the source is
    /// shorter than the packet.
    pub open spec fn next_plan(&self) -> Result<PacketPlan, Error> {
        if self.exhausted {
            Err(Error::EndOfStream)
        } else {
            match self.info.spec_plan_packet(self.bounds, self.pos as int) {
                Ok(plan) => if plan.end() <= self.source.len() {
                    Ok(plan)
                } else {
                    Err(Error::UnexpectedEof)
                },
                Err(e) => Err(e),
            }
        }
    }

    /// The demuxer after the next read.
    pub open spec fn after_next(&self) -> DemuxerView {
        match self.next_plan() {
            Ok(plan) => DemuxerView { pos: plan.end() as u64, ..*self },
            Err(Error::EndOfStream) => DemuxerView { exhausted: true, ..*self },
            Err(_) => *self,
        }
    }

    /// The packets that are still to come, in the order of the source.
    pub open spec fn remaining(&self) -> Seq<PacketPlan> {
        self.info.packets_from(self.bounds, self.pos as int)
    }

    /// A read hands out the first of the packets that are still to
    /// come and leaves the others: what an open demuxer reads, one
    /// packet after the other, is the run of packets from its position.
    /// When none is left, it reports the end of the stream.
    pub proof fn lemma_read_takes_first_remaining(&self)
        requires
            self.wf(),
            !self.exhausted,
        ensures
            match self.next_plan() {
                Ok(plan) => self.remaining() == seq![plan] + self.after_next().remaining()
                    && self.after_next().wf(),
                Err(e) => e == Error::EndOfStream <==> self.remaining().len() == 0,
            },
    {
        self.info.lemma_first_packet(self.bounds, self.pos as int);
    }

    /// The demuxer after a seek to the frame `ts`.
    pub open spec fn after_seek(&self, ts: u64) -> DemuxerView {
        match self.info.spec_plan_seek(self.bounds, ts as int) {
            Ok(plan) => DemuxerView { pos: plan.pos, exhausted: false, ..*self },
            Err(_) => *self,
        }
    }

    /// After a seek that succeeds the demuxer is open, and the packet
    /// that it cuts next starts at the block that the seek reports: at
    /// its position and with its timestamp, which is at or before the
    /// frame that was asked for.
    pub proof fn law_read_follows_seek(&self, ts: u64)
        requires
            self.wf(),
            self.info.spec_plan_seek(self.bounds, ts as int) is Ok,
        ensures
            ({
                let seek = self.info.spec_plan_seek(self.bounds, ts as int)->Ok_0;
                let after = self.after_seek(ts);
                &&& after.wf()
                &&& !after.exhausted
                &&& seek.actual_ts <= ts
                &&& after.info.spec_plan_packet(after.bounds, after.pos as int) matches Ok(plan)
                    && plan.start == seek.pos && plan.ts == seek.actual_ts
            }),
    {
        self.info.lemma_seek_lands_on_block(self.bounds, ts as int);
    }
}

impl Demuxer {
    #[verifier::type_invariant]
    spec fn well_formed(self) -> bool {
        &&& self.info.cuts(self.bounds)
        &&& self.info.aligned(self.bounds, self.pos as int)
    }

    /// Opens the packet stream of the track `track_id` over `source`, at
    /// the start of the data.
    pub fn new(source: Vec<u8>, track_id: u32, info: PacketInfo, bounds: DataBounds) -> (r:
        Demuxer)
        requires
            info.cuts(bounds),
        ensures
            r@ == (DemuxerView {
                source: source@,
                pos: bounds.start,
                track_id,
                info,
                bounds,
                exhausted: false,
            }),
            r@.wf(),
    {
        proof {
            lemma_small_mod(0, info.block_size as nat);
        }
        Demuxer { source, pos: bounds.start, track_id, info, bounds, exhausted: false }
    }

    /// Reads the next packet: the bytes of its blocks as they lie in the
    /// source, with the track, the timestamp and the duration.
    pub fn next_packet(&mut self) -> (res: Result<Packet, Error>)
        ensures
            old(self)@.wf(),
            final(self)@.wf(),
            final(self)@ == old(self)@.after_next(),
            match old(self)@.next_plan() {
                Ok(plan) => res matches Ok(packet) && {
                    &&& packet.track_id == old(self)@.track_id
                    &&& packet.ts == plan.ts
                    &&& packet.dur == plan.dur
                    &&& packet.data@ == old(self)@.source.subrange(plan.start as int, plan.end())
                },
                Err(e) => res == Err::<Packet, Error>(e),
            },
    {
        proof {
            use_type_invariant(&*self);
        }
        if self.exhausted {
            return Err(Error::EndOfStream);
        }
        proof {
            self.info.lemma_first_packet(self.bounds, self.pos as int);
        }
        let plan = match self.info.plan_packet(&self.bounds, self.pos) {
            Ok(plan) => plan,
            Err(e) => {
                // Only the end of the stream is left: the block size is not 0.
                self.exhausted = true;
                return Err(e);
            },
        };
        let end = plan.start + plan.len;
        if end > self.source.len() as u64 {
            return Err(Error::UnexpectedEof);
        }
        let data = slice_to_vec(slice_subrange(self.source.as_slice(), plan.start as usize, end as usize));
        self.pos = end;
        Ok(Packet { track_id: self.track_id, ts: plan.ts, dur: plan.dur, data })
    }

    /// Moves to the block that holds the frame `ts` and reports the
    /// timestamp of that block. A demuxer that was exhausted is open
    /// again afterwards. A seek that is refused changes nothing.
    pub fn seek(&mut self, ts: u64) -> (res: Result<SeekedTo, Error>)
        ensures
            old(self)@.wf(),
            final(self)@.wf(),
            final(self)@ == old(self)@.after_seek(ts),
            match old(self)@.info.spec_plan_seek(old(self)@.bounds, ts as int) {
                Ok(plan) => res == Ok::<SeekedTo, Error>(
                    SeekedTo {
                        track_id: old(self)@.track_id,
                        required_ts: ts,
                        actual_ts: plan.actual_ts,
                    },
                ),
                Err(e) => res == Err::<SeekedTo, Error>(e),
            },
    {
        proof {
            use_type_invariant(&*self);
        }
        let plan = match self.info.plan_seek(&self.bounds, ts) {
            Ok(plan) => plan,
            Err(e) => {
                return Err(e);
            },
        };
        proof {
            self.info.lemma_seek_lands_on_block(self.bounds, ts as int);
        }
        self.pos = plan.pos;
        self.exhausted = false;
        Ok(SeekedTo { track_id: self.track_id, required_ts: ts, actual_ts: plan.actual_ts })
    }

    /// Closes the demuxer and hands the source back.
    pub fn into_inner(self) -> (source: Vec<u8>)
        ensures
            source@ == self@.source,
    {
        self.source
    }

    /// The position of the next byte that is handed out.
    pub fn pos(&self) -> (pos: u64)
        ensures
            pos == self@.pos,
    {
        self.pos
    }

    /// Whether the end of the stream has been reported.
    pub fn is_exhausted(&self) -> (exhausted: bool)
        ensures
            exhausted == self@.exhausted,
    {
        self.exhausted
    }

    /// How the data divides into blocks and packets.
    pub fn packet_info(&self) -> (info: PacketInfo)
        ensures
            info == self@.info,
    {
        self.info
    }

    /// Where the data lies in the source.
    pub fn data_bounds(&self) -> (bounds: DataBounds)
        ensures
            bounds == self@.bounds,
    {
        self.bounds
    }
}

} // verus!
