//! Decoded audio sources.
//!
//! A source is built packet by packet: the first decoded packet fixes the
//! sample rate and channel count, and every later packet must match them
//! exactly. Packets arrive as interleaved samples (frame by frame, channel by
//! channel within each frame) and are split into one array per channel.
//! Samples are stored by their 32-bit encoding; the engine moves them around
//! but never does arithmetic on them.

use vstd::arithmetic::div_mod::lemma_fundamental_div_mod;
use vstd::arithmetic::mul::lemma_mul_is_commutative;
use vstd::prelude::*;

use crate::error::AudioError;

verus! {

/// Fully decoded audio: one sample array per channel, plus the sample rate
/// and channel count fixed by the first decoded packet.
#[derive(Clone, Debug)]
pub struct AudioData {
    pub samples: Vec<Vec<u32>>,
    pub sample_rate: u32,
    pub channel_count: usize,
}

impl AudioData {
    /// Samples per channel.
    pub open spec fn channel_len(self) -> nat {
        self.samples@[0]@.len()
    }

    /// There is one array per channel and all arrays have equal length.
    pub open spec fn wf(self) -> bool {
        &&& self.channel_count >= 1
        &&& self.samples@.len() == self.channel_count
        &&& forall|c: int|
            0 <= c < self.samples@.len() ==> (#[trigger] self.samples@[c])@.len()
                == self.channel_len()
    }

    /// The sample of channel `c` at frame `i`.
    pub open spec fn sample(self, c: int, i: int) -> u32 {
        self.samples@[c]@[i]
    }

    /// Builds a source from the first decoded packet, whose interleaved
    /// samples are split frame by frame into one array per channel.
    pub fn new(sample_rate: u32, channel_count: usize, interleaved: Vec<u32>) -> (r: AudioData)
        requires
            channel_count >= 1,
            (interleaved@.len() as int) % (channel_count as int) == 0,
        ensures
            r.wf(),
            r.sample_rate == sample_rate,
            r.channel_count == channel_count,
            r.channel_len() == (interleaved@.len() as int) / (channel_count as int),
            forall|c: int, i: int|
                0 <= c < channel_count && 0 <= i < r.channel_len() ==> r.sample(c, i)
                    == interleaved@[i * (channel_count as int) + c],
    {
        let mut samples: Vec<Vec<u32>> = Vec::new();
        let mut c: usize = 0;
        while c < channel_count
            invariant
                c <= channel_count,
                samples@.len() == c,
                forall|cc: int| 0 <= cc < c ==> (#[trigger] samples@[cc])@.len() == 0,
            decreases channel_count - c,
        {
            samples.push(Vec::new());
            c = c + 1;
        }
        append_deinterleaved(&mut samples, channel_count, &interleaved);
        AudioData { samples, sample_rate, channel_count }
    }

    /// Accumulates one more decoded packet. A packet whose sample rate or
    /// channel count differs from the first packet's fails with
    /// `FormatMismatch` and leaves the source untouched; a matching packet
    /// (an empty one included) appends its frames to every channel.
    pub fn push_packet(
        &mut self,
        sample_rate: u32,
        channel_count: usize,
        interleaved: Vec<u32>,
    ) -> (r: Result<(), AudioError>)
        requires
            old(self).wf(),
            channel_count == old(self).channel_count ==> (interleaved@.len() as int) % (
            channel_count as int) == 0,
        ensures
            final(self).wf(),
            final(self).sample_rate == old(self).sample_rate,
            final(self).channel_count == old(self).channel_count,
            sample_rate != old(self).sample_rate || channel_count != old(self).channel_count
                ==> r == Err::<(), AudioError>(AudioError::FormatMismatch) && *final(self)
                == *old(self),
            sample_rate == old(self).sample_rate && channel_count == old(self).channel_count ==> {
                &&& r == Ok::<(), AudioError>(())
                &&& final(self).channel_len() == old(self).channel_len() + (interleaved@.len() as int) / (
                channel_count as int)
                &&& forall|c: int, i: int|
                    0 <= c < channel_count && 0 <= i < old(self).channel_len()
                        ==> final(self).sample(c, i) == old(self).sample(c, i)
                &&& forall|c: int, i: int|
                    0 <= c < channel_count && old(self).channel_len() <= i
                        < final(self).channel_len() ==> final(self).sample(c, i)
                        == interleaved@[(i - old(self).channel_len()) * (channel_count as int) + c]
            },
    {
        if sample_rate != self.sample_rate || channel_count != self.channel_count {
            return Err(AudioError::FormatMismatch);
        }
        append_deinterleaved(&mut self.samples, channel_count, &interleaved);
        Ok(())
    }
}

/// What the decode collaborator reports for one packet, reduced to plain
/// values: a decoded packet with its geometry and interleaved samples, the
/// end of the stream, or a failure.
pub enum PacketEvent {
    /// One successfully decoded packet.
    Packet { sample_rate: u32, channel_count: usize, interleaved: Vec<u32> },
    /// The demuxer reached the end of the stream; loading is complete.
    EndOfStream,
    /// The collaborator reported an input/output failure.
    IoFailure,
    /// The collaborator failed for any other reason.
    OtherFailure,
}

/// Forgets the payload of a load-step result, leaving which error it was.
pub open spec fn as_unit_result(r: Result<bool, AudioError>) -> Result<(), AudioError> {
    match r {
        Ok(_) => Ok(()),
        Err(e) => Err(e),
    }
}

/// What one step of packet accumulation does: with no source yet, the packet
/// starts one and fixes its geometry; with a source, a matching packet
/// appends its frames and a mismatched one fails with `FormatMismatch` and
/// changes nothing.
pub open spec fn loader_push_post(
    pre: AudioLoader,
    post: AudioLoader,
    sample_rate: u32,
    channel_count: usize,
    interleaved: Seq<u32>,
    r: Result<(), AudioError>,
) -> bool {
    &&& post.wf()
    &&& (pre.data is None ==> {
        &&& r == Ok::<(), AudioError>(())
        &&& post.data is Some
        &&& post.data->Some_0.sample_rate == sample_rate
        &&& post.data->Some_0.channel_count == channel_count
        &&& post.data->Some_0.channel_len() == (interleaved.len() as int) / (channel_count as int)
        &&& forall|c: int, i: int|
            0 <= c < channel_count && 0 <= i < post.data->Some_0.channel_len()
                ==> post.data->Some_0.sample(c, i) == interleaved[i * (channel_count as int) + c]
    })
    &&& (pre.data is Some ==> post.data is Some && post.data->Some_0.sample_rate
        == pre.data->Some_0.sample_rate && post.data->Some_0.channel_count
        == pre.data->Some_0.channel_count)
    &&& (pre.data is Some && (sample_rate != pre.data->Some_0.sample_rate || channel_count
        != pre.data->Some_0.channel_count) ==> r == Err::<(), AudioError>(
        AudioError::FormatMismatch,
    ) && post == pre)
    &&& (pre.data is Some && sample_rate == pre.data->Some_0.sample_rate && channel_count
        == pre.data->Some_0.channel_count ==> {
        &&& r == Ok::<(), AudioError>(())
        &&& post.data->Some_0.channel_len() == pre.data->Some_0.channel_len() + (
        interleaved.len() as int) / (channel_count as int)
        &&& forall|c: int, i: int|
            0 <= c < channel_count && 0 <= i < pre.data->Some_0.channel_len()
                ==> post.data->Some_0.sample(c, i) == pre.data->Some_0.sample(c, i)
        &&& forall|c: int, i: int|
            0 <= c < channel_count && pre.data->Some_0.channel_len() <= i
                < post.data->Some_0.channel_len() ==> post.data->Some_0.sample(c, i)
                == interleaved[(i - pre.data->Some_0.channel_len()) * (channel_count as int) + c]
    })
}

/// Accumulates decoded packets into an `AudioData`.
///
/// The first packet fixes the reference sample rate and channel count; later
/// packets must match them. Closing the loader before any packet arrived
/// means no audio data was decoded at all.
pub struct AudioLoader {
    pub data: Option<AudioData>,
}

impl AudioLoader {
    /// The accumulated source, if any, is well formed.
    pub open spec fn wf(self) -> bool {
        self.data is Some ==> self.data->Some_0.wf()
    }

    /// A loader that has seen no packet yet.
    pub fn new() -> (r: AudioLoader)
        ensures
            r.data is None,
            r.wf(),
    {
        AudioLoader { data: None }
    }

    /// Feeds one decoded packet: the first packet starts the source and fixes
    /// its geometry; a later packet appends to it, or fails with
    /// `FormatMismatch` when its geometry differs, leaving the source as it
    /// was.
    pub fn push_packet(
        &mut self,
        sample_rate: u32,
        channel_count: usize,
        interleaved: Vec<u32>,
    ) -> (r: Result<(), AudioError>)
        requires
            old(self).wf(),
            channel_count >= 1,
            (interleaved@.len() as int) % (channel_count as int) == 0,
        ensures
            loader_push_post(
                *old(self),
                *final(self),
                sample_rate,
                channel_count,
                interleaved@,
                r,
            ),
    {
        match &mut self.data {
            None => {
                self.data = Some(AudioData::new(sample_rate, channel_count, interleaved));
                Ok(())
            },
            Some(d) => d.push_packet(sample_rate, channel_count, interleaved),
        }
    }

    /// Drives the load loop by one step. A decoded packet is accumulated;
    /// the end of the stream completes the load (`Ok(true)`); a failure of
    /// the decode collaborator fails the load and leaves the source behind.
    pub fn consume_event(&mut self, event: PacketEvent) -> (r: Result<bool, AudioError>)
        requires
            old(self).wf(),
            event matches PacketEvent::Packet { channel_count, interleaved, .. } ==> channel_count
                >= 1 && (interleaved@.len() as int) % (channel_count as int) == 0,
        ensures
            final(self).wf(),
            event matches PacketEvent::Packet { sample_rate, channel_count, interleaved } ==> {
                &&& loader_push_post(
                    *old(self),
                    *final(self),
                    sample_rate,
                    channel_count,
                    interleaved@,
                    as_unit_result(r),
                )
                &&& (r is Ok ==> r == Ok::<bool, AudioError>(false))
            },
            event is EndOfStream ==> r == Ok::<bool, AudioError>(true) && *final(self) == *old(
                self,
            ),
            event is IoFailure ==> r == Err::<bool, AudioError>(AudioError::DecodeIoError)
                && *final(self) == *old(self),
            event is OtherFailure ==> r == Err::<bool, AudioError>(AudioError::DecodeOtherError)
                && *final(self) == *old(self),
    {
        match event {
            PacketEvent::Packet { sample_rate, channel_count, interleaved } => {
                match self.push_packet(sample_rate, channel_count, interleaved) {
                    Ok(_) => Ok(false),
                    Err(e) => Err(e),
                }
            },
            PacketEvent::EndOfStream => Ok(true),
            PacketEvent::IoFailure => Err(AudioError::DecodeIoError),
            PacketEvent::OtherFailure => Err(AudioError::DecodeOtherError),
        }
    }

    /// Closes the loader: the accumulated source, or `NoAudioData` when not a
    /// single packet was decoded.
    pub fn finish(self) -> (r: Result<AudioData, AudioError>)
        requires
            self.wf(),
        ensures
            self.data is None ==> r == Err::<AudioData, AudioError>(AudioError::NoAudioData),
            self.data is Some ==> r == Ok::<AudioData, AudioError>(self.data->Some_0),
            r matches Ok(d) ==> d.wf(),
    {
        match self.data {
            None => Err(AudioError::NoAudioData),
            Some(d) => Ok(d),
        }
    }
}

/// Splits `interleaved` (frame by frame, channel by channel within each
/// frame) and appends each channel's samples to its array.
fn append_deinterleaved(samples: &mut Vec<Vec<u32>>, channel_count: usize, interleaved: &Vec<u32>)
    requires
        channel_count >= 1,
        old(samples)@.len() == channel_count,
        (interleaved@.len() as int) % (channel_count as int) == 0,
        forall|c: int|
            0 <= c < channel_count ==> (#[trigger] old(samples)@[c])@.len()
                == old(samples)@[0]@.len(),
    ensures
        final(samples)@.len() == channel_count,
        forall|c: int|
            0 <= c < channel_count ==> (#[trigger] final(samples)@[c])@.len()
                == old(samples)@[0]@.len() + (interleaved@.len() as int) / (channel_count as int),
        forall|c: int, i: int|
            0 <= c < channel_count && 0 <= i < old(samples)@[0]@.len()
                ==> (#[trigger] final(samples)@[c]@[i]) == old(samples)@[c]@[i],
        forall|c: int, i: int|
            0 <= c < channel_count && old(samples)@[0]@.len() <= i < old(samples)@[0]@.len()
                + (interleaved@.len() as int) / (channel_count as int)
                ==> (#[trigger] final(samples)@[c]@[i]) == interleaved@[(i - old(
            samples)@[0]@.len()) * (channel_count as int) + c],
{
    let frames: usize = interleaved.len() / channel_count;
    proof {
        lemma_fundamental_div_mod(interleaved@.len() as int, channel_count as int);
        lemma_mul_is_commutative(frames as int, channel_count as int);
        assert(interleaved@.len() == frames * channel_count);
        assert(interleaved@.len() <= usize::MAX);
    }
    let ghost base = old(samples)@[0]@.len();
    let ghost osnap = samples@;
    let mut c: usize = 0;
    while c < channel_count
        invariant
            c <= channel_count,
            channel_count >= 1,
            samples@.len() == channel_count,
            osnap.len() == channel_count,
            interleaved@.len() == frames * channel_count,
            interleaved@.len() <= usize::MAX,
            forall|cc: int| 0 <= cc < channel_count ==> (#[trigger] osnap[cc])@.len() == base,
            forall|cc: int| c <= cc < channel_count ==> samples@[cc] == osnap[cc],
            forall|cc: int|
                0 <= cc < c ==> (#[trigger] samples@[cc])@.len() == base + frames,
            forall|cc: int, t: int|
                0 <= cc < c && 0 <= t < base ==> (#[trigger] samples@[cc]@[t]) == osnap[cc]@[t],
            forall|cc: int, t: int|
                0 <= cc < c && base <= t < base + frames ==> (#[trigger] samples@[cc]@[t])
                    == interleaved@[(t - base) * (channel_count as int) + cc],
        decreases channel_count - c,
    {
        let ghost csnap = samples@;
        proof {
            assert(samples@[c as int] == osnap[c as int]);
            assert(csnap[c as int]@.len() == base);
        }
        let mut i: usize = 0;
        while i < frames
            invariant
                i <= frames,
                c < channel_count,
                channel_count >= 1,
                samples@.len() == channel_count,
                csnap.len() == channel_count,
                interleaved@.len() == frames * channel_count,
                interleaved@.len() <= usize::MAX,
                csnap[c as int]@.len() == base,
                forall|cc: int| 0 <= cc < channel_count && cc != c ==> samples@[cc] == csnap[cc],
                samples@[c as int]@.len() == base + i,
                forall|t: int|
                    0 <= t < base ==> (#[trigger] samples@[c as int]@[t]) == csnap[c as int]@[t],
                forall|t: int|
                    base <= t < base + i ==> (#[trigger] samples@[c as int]@[t]) == interleaved@[(t
                        - base) * (channel_count as int) + c],
            decreases frames - i,
        {
            assert(i * channel_count + c < interleaved@.len()) by (nonlinear_arith)
                requires
                    i < frames,
                    c < channel_count,
                    interleaved@.len() == frames * channel_count,
            ;
            let x: u32 = interleaved[i * channel_count + c];
            samples[c].push(x);
            assert forall|t: int| base <= t < base + i + 1 implies (#[trigger] samples@[c
                as int]@[t]) == interleaved@[(t - base) * (channel_count as int) + c] by {
                if t == base + i {
                    assert(samples@[c as int]@[t] == x);
                }
            }
            i = i + 1;
        }
        proof {
            assert forall|cc: int| 0 <= cc < c + 1 implies (#[trigger] samples@[cc])@.len() == base
                + frames by {
                if cc < c {
                    assert(samples@[cc] == csnap[cc]);
                    assert(csnap[cc]@.len() == base + frames);
                }
            }
            assert forall|cc: int, t: int| 0 <= cc < c + 1 && 0 <= t < base implies (
            #[trigger] samples@[cc]@[t]) == osnap[cc]@[t] by {
                if cc < c {
                    assert(samples@[cc] == csnap[cc]);
                    assert(csnap[cc]@[t] == osnap[cc]@[t]);
                } else {
                    assert(samples@[c as int]@[t] == csnap[c as int]@[t]);
                    assert(csnap[c as int] == osnap[c as int]);
                }
            }
            assert forall|cc: int, t: int|
                0 <= cc < c + 1 && base <= t < base + frames implies (#[trigger] samples@[cc]@[t])
                == interleaved@[(t - base) * (channel_count as int) + cc] by {
                if cc < c {
                    assert(samples@[cc] == csnap[cc]);
                    assert(csnap[cc]@[t] == interleaved@[(t - base) * (channel_count as int) + cc]);
                }
            }
        }
        c = c + 1;
    }
}

} // verus!
