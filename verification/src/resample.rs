//! Planning of the resampling pipeline.
//!
//! The pipeline works in fixed-size blocks: the block size is the ratio of
//! target to source rate scaled to 1024 source frames and rounded to the
//! nearest integer. Every channel is zero-padded at the tail to the next
//! multiple of the block size so a worker can always consume full blocks, and
//! the total interleaved output length is estimated up front (rounded up,
//! within one sample of the exact rational value) so transport queries work
//! before resampling completes. Blocks produced per channel are interleaved
//! frame by frame before they are published.

use vstd::arithmetic::div_mod::{
    lemma_div_by_self, lemma_div_is_ordered, lemma_div_pos_is_pos, lemma_fundamental_div_mod,
    lemma_fundamental_div_mod_converse, lemma_mod_division_less_than_divisor,
};
use vstd::arithmetic::mul::{
    lemma_mul_is_commutative, lemma_mul_nonnegative, lemma_mul_upper_bound,
};
use vstd::prelude::*;

use crate::source::AudioData;

verus! {

/// The geometry of one pipeline run.
#[derive(Clone, Copy, Debug, PartialEq, Eq, Structural)]
pub struct ResamplePlan {
    /// Source frames consumed per resampler step.
    pub block_size: usize,
    /// Steps needed to consume the padded source.
    pub block_count: usize,
    /// Per-channel length after zero padding: the next multiple of
    /// `block_size` at or above the source length.
    pub padded_len: usize,
    /// Estimated interleaved output length, rounded up.
    pub total_len: usize,
}

/// 1024 source frames scaled by the rate ratio, rounded half-up:
/// `round(1024 * dst_rate / src_rate)`.
pub open spec fn block_size_spec(src_rate: int, dst_rate: int) -> int {
    (2048 * dst_rate + src_rate) / (2 * src_rate)
}

/// How many whole blocks cover `len` frames.
pub open spec fn blocks_spec(len: int, block_size: int) -> int {
    (len + block_size - 1) / block_size
}

/// `ceil(len * dst_rate * channels / src_rate)`: the interleaved output
/// length that a source of `len` frames per channel resamples to.
pub open spec fn total_len_spec(len: int, src_rate: int, dst_rate: int, channels: int) -> int {
    (len * dst_rate * channels + src_rate - 1) / src_rate
}

/// Lays out one pipeline run for a source of `channel_len` frames per
/// channel. The total length estimate is exact up to rounding: scaled back by
/// the source rate it differs from `channel_len * dst_rate * channel_count`
/// by less than one source frame.
pub fn plan(src_rate: u32, dst_rate: u32, channel_count: usize, channel_len: usize) -> (r:
    ResamplePlan)
    requires
        1 <= src_rate,
        1 <= dst_rate,
        1 <= channel_count,
        src_rate <= 2048 * dst_rate,
        block_size_spec(src_rate as int, dst_rate as int) <= usize::MAX,
        channel_len + block_size_spec(src_rate as int, dst_rate as int) <= usize::MAX,
        total_len_spec(
            channel_len as int,
            src_rate as int,
            dst_rate as int,
            channel_count as int,
        ) <= usize::MAX,
    ensures
        r.block_size == block_size_spec(src_rate as int, dst_rate as int),
        1 <= r.block_size,
        2 * src_rate * r.block_size <= 2048 * dst_rate + src_rate,
        2048 * dst_rate + src_rate < 2 * src_rate * r.block_size + 2 * src_rate,
        r.block_count == blocks_spec(channel_len as int, r.block_size as int),
        r.padded_len == r.block_count * r.block_size,
        channel_len <= r.padded_len < channel_len + r.block_size,
        r.total_len == total_len_spec(
            channel_len as int,
            src_rate as int,
            dst_rate as int,
            channel_count as int,
        ),
        r.total_len * src_rate >= channel_len * dst_rate * channel_count,
        r.total_len * src_rate < channel_len * dst_rate * channel_count + src_rate,
{
    // Block size: round(1024 * dst / src), computed as
    // (2048 * dst + src) / (2 * src).
    let num: u64 = 2048 * (dst_rate as u64) + (src_rate as u64);
    let s2: u64 = 2 * (src_rate as u64);
    let bq: u64 = num / s2;
    proof {
        lemma_fundamental_div_mod(num as int, s2 as int);
        lemma_mod_division_less_than_divisor(num as int, s2 as int);
        lemma_div_is_ordered(s2 as int, num as int, s2 as int);
        lemma_div_by_self(s2 as int);
    }
    let block_size: usize = bq as usize;

    // Padded length: the next multiple of the block size.
    let block_count: usize = (channel_len + block_size - 1) / block_size;
    proof {
        lemma_fundamental_div_mod((channel_len + block_size - 1) as int, block_size as int);
        lemma_mod_division_less_than_divisor(
            (channel_len + block_size - 1) as int,
            block_size as int,
        );
        lemma_mul_is_commutative(block_size as int, block_count as int);
    }
    let padded_len: usize = block_count * block_size;

    // Total output estimate: ceil(len * dst * channels / src).
    let ghost ai = (channel_len as int) * (dst_rate as int) * (channel_count as int);
    let ghost ti = total_len_spec(
        channel_len as int,
        src_rate as int,
        dst_rate as int,
        channel_count as int,
    );
    proof {
        lemma_mul_nonnegative(channel_len as int, dst_rate as int);
        lemma_mul_nonnegative((channel_len as int) * (dst_rate as int), channel_count as int);
        lemma_fundamental_div_mod(ai + src_rate - 1, src_rate as int);
        lemma_mod_division_less_than_divisor(ai + src_rate - 1, src_rate as int);
        lemma_div_pos_is_pos(ai + src_rate - 1, src_rate as int);
        lemma_mul_upper_bound(src_rate as int, u32::MAX as int, ti, usize::MAX as int);
        assert(ai <= (u32::MAX as int) * (usize::MAX as int));
        assert((channel_len as int) * (dst_rate as int) <= ai) by (nonlinear_arith)
            requires
                channel_count >= 1,
                0 <= (channel_len as int) * (dst_rate as int),
                ai == (channel_len as int) * (dst_rate as int) * (channel_count as int),
        ;
    }
    let a: u128 = (channel_len as u128) * (dst_rate as u128) * (channel_count as u128);
    let t: u128 = (a + (src_rate as u128) - 1) / (src_rate as u128);
    let total_len: usize = t as usize;
    proof {
        lemma_mul_is_commutative(src_rate as int, ti);
    }

    ResamplePlan { block_size, block_count, padded_len, total_len }
}

/// Zero-pads every channel of `data` at the tail up to `padded_len` frames.
pub fn pad_source(data: &mut AudioData, padded_len: usize)
    requires
        old(data).wf(),
        old(data).channel_len() <= padded_len,
    ensures
        final(data).wf(),
        final(data).sample_rate == old(data).sample_rate,
        final(data).channel_count == old(data).channel_count,
        final(data).channel_len() == padded_len,
        forall|c: int, i: int|
            0 <= c < old(data).channel_count && 0 <= i < old(data).channel_len()
                ==> final(data).sample(c, i) == old(data).sample(c, i),
        forall|c: int, i: int|
            0 <= c < old(data).channel_count && old(data).channel_len() <= i < padded_len
                ==> final(data).sample(c, i) == 0u32,
{
    let ghost base = old(data).channel_len();
    let ghost osnap = data.samples@;
    let channel_count = data.channel_count;
    let mut c: usize = 0;
    while c < channel_count
        invariant
            c <= channel_count,
            data.channel_count == channel_count,
            data.sample_rate == old(data).sample_rate,
            data.samples@.len() == channel_count,
            osnap.len() == channel_count,
            base <= padded_len,
            forall|cc: int| 0 <= cc < channel_count ==> (#[trigger] osnap[cc])@.len() == base,
            forall|cc: int| c <= cc < channel_count ==> data.samples@[cc] == osnap[cc],
            forall|cc: int|
                0 <= cc < c ==> (#[trigger] data.samples@[cc])@.len() == padded_len,
            forall|cc: int, t: int|
                0 <= cc < c && 0 <= t < base ==> (#[trigger] data.samples@[cc]@[t])
                    == osnap[cc]@[t],
            forall|cc: int, t: int|
                0 <= cc < c && base <= t < padded_len ==> (#[trigger] data.samples@[cc]@[t])
                    == 0u32,
        decreases channel_count - c,
    {
        let ghost csnap = data.samples@;
        proof {
            assert(data.samples@[c as int] == osnap[c as int]);
        }
        let mut i: usize = data.samples[c].len();
        while i < padded_len
            invariant
                base <= i <= padded_len,
                c < channel_count,
                data.channel_count == channel_count,
                data.sample_rate == old(data).sample_rate,
                data.samples@.len() == channel_count,
                csnap.len() == channel_count,
                csnap[c as int]@.len() == base,
                forall|cc: int|
                    0 <= cc < channel_count && cc != c ==> data.samples@[cc] == csnap[cc],
                data.samples@[c as int]@.len() == i,
                forall|t: int|
                    0 <= t < base ==> (#[trigger] data.samples@[c as int]@[t]) == csnap[c
                        as int]@[t],
                forall|t: int|
                    base <= t < i ==> (#[trigger] data.samples@[c as int]@[t]) == 0u32,
            decreases padded_len - i,
        {
            data.samples[c].push(0);
            i = i + 1;
        }
        proof {
            assert forall|cc: int| 0 <= cc < c + 1 implies (#[trigger] data.samples@[cc])@.len()
                == padded_len by {
                if cc < c {
                    assert(data.samples@[cc] == csnap[cc]);
                }
            }
            assert forall|cc: int, t: int| 0 <= cc < c + 1 && 0 <= t < base implies (
            #[trigger] data.samples@[cc]@[t]) == osnap[cc]@[t] by {
                if cc < c {
                    assert(data.samples@[cc] == csnap[cc]);
                } else {
                    assert(data.samples@[c as int]@[t] == csnap[c as int]@[t]);
                    assert(csnap[c as int] == osnap[c as int]);
                }
            }
            assert forall|cc: int, t: int| 0 <= cc < c + 1 && base <= t < padded_len implies (
            #[trigger] data.samples@[cc]@[t]) == 0u32 by {
                if cc < c {
                    assert(data.samples@[cc] == csnap[cc]);
                }
            }
        }
        c = c + 1;
    }
}

/// Copies block `index` (frames `index * block_size` up to the next block
/// boundary) out of every channel.
pub fn block_of(data: &AudioData, index: usize, block_size: usize) -> (r: Vec<Vec<u32>>)
    requires
        data.wf(),
        1 <= block_size,
        (index + 1) * block_size <= data.channel_len(),
    ensures
        r@.len() == data.channel_count,
        forall|c: int| 0 <= c < r@.len() ==> (#[trigger] r@[c])@.len() == block_size,
        forall|c: int, t: int|
            0 <= c < r@.len() && 0 <= t < block_size ==> (#[trigger] r@[c]@[t]) == data.sample(
                c,
                index * block_size + t,
            ),
{
    let clen: usize = data.samples[0].len();
    proof {
        assert((index + 1) * block_size == index * block_size + block_size) by (nonlinear_arith);
        assert(clen == data.channel_len());
    }
    let start: usize = index * block_size;
    let channel_count = data.channel_count;
    let mut r: Vec<Vec<u32>> = Vec::new();
    let mut c: usize = 0;
    while c < channel_count
        invariant
            c <= channel_count,
            data.wf(),
            data.channel_count == channel_count,
            start == index * block_size,
            start + block_size <= clen == data.channel_len(),
            r@.len() == c,
            forall|cc: int| 0 <= cc < c ==> (#[trigger] r@[cc])@.len() == block_size,
            forall|cc: int, t: int|
                0 <= cc < c && 0 <= t < block_size ==> (#[trigger] r@[cc]@[t]) == data.sample(
                    cc,
                    start + t,
                ),
        decreases channel_count - c,
    {
        let mut chan: Vec<u32> = Vec::new();
        let mut t: usize = 0;
        while t < block_size
            invariant
                t <= block_size,
                c < channel_count,
                data.wf(),
                data.channel_count == channel_count,
                start + block_size <= clen == data.channel_len(),
                chan@.len() == t,
                forall|tt: int|
                    0 <= tt < t ==> (#[trigger] chan@[tt]) == data.sample(c as int, start + tt),
            decreases block_size - t,
        {
            let x: u32 = data.samples[c][start + t];
            chan.push(x);
            t = t + 1;
        }
        r.push(chan);
        c = c + 1;
    }
    r
}

/// Interleaves equally long channels frame by frame: frame `f` of channel `c`
/// lands at position `f * channels + c`.
pub fn interleave(channels: &Vec<Vec<u32>>) -> (r: Vec<u32>)
    requires
        channels@.len() >= 1,
        forall|c: int|
            0 <= c < channels@.len() ==> (#[trigger] channels@[c])@.len() == channels@[0]@.len(),
        channels@[0]@.len() * channels@.len() <= usize::MAX,
    ensures
        r@.len() == channels@[0]@.len() * channels@.len(),
        forall|f: int, c: int|
            0 <= f < channels@[0]@.len() && 0 <= c < channels@.len() ==> r@[f * channels@.len()
                + c] == channels@[c]@[f],
{
    let ch: usize = channels.len();
    let frames: usize = channels[0].len();
    let mut r: Vec<u32> = Vec::new();
    let mut f: usize = 0;
    while f < frames
        invariant
            f <= frames,
            1 <= ch == channels@.len(),
            frames == channels@[0]@.len(),
            forall|c: int|
                0 <= c < channels@.len() ==> (#[trigger] channels@[c])@.len() == frames,
            frames * ch <= usize::MAX,
            r@.len() == f * ch,
            forall|k: int|
                0 <= k < f * ch ==> r@[k] == channels@[k % (ch as int)]@[k / (ch as int)],
        decreases frames - f,
    {
        proof {
            assert(f * ch + ch <= frames * ch) by (nonlinear_arith)
                requires
                    f < frames,
                    ch >= 1,
            ;
        }
        let mut c: usize = 0;
        while c < ch
            invariant
                c <= ch,
                f < frames,
                1 <= ch == channels@.len(),
                frames == channels@[0]@.len(),
                forall|cc: int|
                    0 <= cc < channels@.len() ==> (#[trigger] channels@[cc])@.len() == frames,
                f * ch + ch <= frames * ch <= usize::MAX,
                r@.len() == f * ch + c,
                forall|k: int|
                    0 <= k < f * ch + c ==> r@[k] == channels@[k % (ch as int)]@[k / (ch as int)],
            decreases ch - c,
        {
            let x: u32 = channels[c][f];
            r.push(x);
            proof {
                lemma_fundamental_div_mod_converse(
                    f * ch + c,
                    ch as int,
                    f as int,
                    c as int,
                );
            }
            c = c + 1;
        }
        proof {
            assert((f + 1) * ch == f * ch + ch) by (nonlinear_arith);
        }
        f = f + 1;
    }
    proof {
        assert forall|ff: int, cc: int|
            0 <= ff < channels@[0]@.len() && 0 <= cc < channels@.len() implies r@[ff * channels@.len()
            + cc] == channels@[cc]@[ff] by {
            assert(ff * (ch as int) + cc < frames * ch) by (nonlinear_arith)
                requires
                    0 <= ff < frames,
                    0 <= cc < ch,
            ;
            assert(0 <= ff * (ch as int) + cc) by (nonlinear_arith)
                requires
                    0 <= ff,
                    0 <= cc,
                    ch >= 1,
            ;
            lemma_fundamental_div_mod_converse(ff * (ch as int) + cc, ch as int, ff, cc);
        }
    }
    r
}

} // verus!
