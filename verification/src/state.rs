//! Playback state: the transport fields, the installed playback buffer, and
//! the fill path that the output callback drives.
//!
//! The aggregate is designed to sit behind one exclusive lock shared by the
//! control thread and the audio callback thread; each method is a
//! single-threaded state transition. States of the transport machine: idle
//! (no buffer), loaded and paused, loaded and playing, and finished — a
//! paused state reached only by exhausting the buffer.

use vstd::arithmetic::div_mod::{
    lemma_div_by_self, lemma_div_is_ordered, lemma_fundamental_div_mod,
    lemma_mod_division_less_than_divisor,
};
use vstd::arithmetic::mul::{
    lemma_mul_is_commutative, lemma_mul_strictly_positive, lemma_mul_upper_bound,
};
use vstd::prelude::*;

use crate::buffer::AudioBuffer;

verus! {

/// Transport state plus the active pipeline output.
pub struct AudioState {
    /// The active pipeline output; replaced wholesale by a new playback,
    /// cleared by `stop`.
    pub audio_buffer: Option<AudioBuffer>,
    /// Interleaved output length estimate of the installed buffer.
    pub buffer_length: usize,
    /// Interleaved samples already delivered to the output device.
    pub position: usize,
    /// A paused transport fills the output with silence.
    pub paused: bool,
    /// The installed buffer was exhausted; implies `paused`.
    pub finished: bool,
    /// Output device rate, fixed for the session.
    pub sample_rate: u32,
    /// Output device channels, fixed for the session.
    pub channel_count: usize,
}

impl AudioState {
    /// Transport invariant: a finished transport is paused, and the device
    /// geometry is sane (at least one channel, and no more than one sample
    /// per nanosecond overall).
    pub open spec fn wf(self) -> bool {
        &&& self.finished ==> self.paused
        &&& 1 <= self.sample_rate
        &&& 1 <= self.channel_count
        &&& self.sample_rate * self.channel_count <= 1_000_000_000
    }

    /// Nanoseconds per interleaved sample of the output device.
    pub open spec fn period_nanos(self) -> int {
        1_000_000_000int / (self.sample_rate * self.channel_count)
    }

    /// Fresh idle state for a device with the given geometry.
    pub fn new(channel_count: u32, sample_rate: u32) -> (r: AudioState)
        requires
            1 <= sample_rate,
            1 <= channel_count,
            sample_rate * channel_count <= 1_000_000_000,
        ensures
            r.wf(),
            r.audio_buffer is None,
            r.buffer_length == 0,
            r.position == 0,
            r.paused,
            !r.finished,
            r.sample_rate == sample_rate,
            r.channel_count == channel_count,
    {
        AudioState {
            audio_buffer: None,
            buffer_length: 0,
            position: 0,
            paused: true,
            finished: false,
            sample_rate,
            channel_count: channel_count as usize,
        }
    }

    /// The fill path, called by the output callback with the device's sample
    /// buffer. Paused: writes silence and touches nothing else. Playing with
    /// no buffer installed: leaves everything as it is. Playing: copies the
    /// samples at `position` out of the buffer (draining the resample channel
    /// as far as needed), zero-fills whatever the buffer could not provide,
    /// advances `position` by the full request, and on exhaustion pauses and
    /// finishes the transport. Never writes more or fewer samples than the
    /// output asked for.
    pub fn write_samples(&mut self, data: &mut Vec<u32>)
        requires
            old(self).wf(),
            old(self).position + old(data)@.len() <= usize::MAX,
        ensures
            final(self).wf(),
            final(data)@.len() == old(data)@.len(),
            final(self).sample_rate == old(self).sample_rate,
            final(self).channel_count == old(self).channel_count,
            final(self).buffer_length == old(self).buffer_length,
            old(self).paused ==> *final(self) == *old(self) && final(data)@ == Seq::new(
                old(data)@.len(),
                |i: int| 0u32,
            ),
            !old(self).paused && old(self).audio_buffer is None ==> *final(self) == *old(self)
                && *final(data) == *old(data),
            !old(self).paused && old(self).audio_buffer is Some ==> {
                let pos = old(self).position;
                let n = old(data)@.len();
                let ob = old(self).audio_buffer->Some_0;
                let nb = final(self).audio_buffer->Some_0;
                &&& final(self).audio_buffer is Some
                &&& ob.buffer@.is_prefix_of(nb.buffer@)
                &&& final(self).position == pos + n
                &&& (final(self).finished <==> (n > 0 && pos + n > nb.buffer@.len()))
                &&& final(self).paused == final(self).finished
                &&& final(self).finished ==> nb.done
                &&& !nb.done ==> nb.buffer@.len() >= pos + n
                &&& forall|i: int|
                    0 <= i < n ==> final(data)@[i] == (if pos + i < nb.buffer@.len() {
                        nb.buffer@[pos + i]
                    } else {
                        0u32
                    })
            },
    {
        if self.paused {
            let n = data.len();
            let mut i: usize = 0;
            while i < n
                invariant
                    i <= n,
                    data@.len() == n,
                    forall|t: int| 0 <= t < i ==> data@[t] == 0u32,
                decreases n - i,
            {
                data[i] = 0;
                i = i + 1;
            }
            proof {
                assert(data@ =~= Seq::new(old(data)@.len(), |i: int| 0u32));
            }
            return ;
        }
        let count = data.len();
        let position = self.position;
        match &mut self.audio_buffer {
            Some(buf) => {
                let (samples, is_final) = buf.read_samples(position, count);
                let mut i: usize = 0;
                while i < count
                    invariant
                        i <= count,
                        data@.len() == count,
                        samples@.len() <= count,
                        forall|t: int|
                            0 <= t < i && t < samples@.len() ==> data@[t] == samples@[t],
                        forall|t: int|
                            samples@.len() <= t < i ==> data@[t] == 0u32,
                    decreases count - i,
                {
                    if i < samples.len() {
                        let x = samples[i];
                        data[i] = x;
                    } else {
                        data[i] = 0;
                    }
                    i = i + 1;
                }
                proof {
                    assert forall|t: int| 0 <= t < count implies data@[t] == (if position + t
                        < buf.buffer@.len() {
                        buf.buffer@[position + t]
                    } else {
                        0u32
                    }) by {
                        if t < samples@.len() {
                            assert(data@[t] == samples@[t]);
                        } else {
                            assert(data@[t] == 0u32);
                        }
                    }
                }
                self.position = position + count;
                if is_final {
                    self.paused = true;
                    self.finished = true;
                }
            },
            None => {},
        }
    }

    /// Installs a freshly started pipeline output: position returns to the
    /// start, the transport is paused (playing is never automatic) and no
    /// longer finished, and the length estimate is recorded.
    pub fn install_buffer(&mut self, buffer: AudioBuffer, length: usize)
        requires
            old(self).wf(),
        ensures
            final(self).wf(),
            final(self).audio_buffer == Some(buffer),
            final(self).buffer_length == length,
            final(self).position == 0,
            final(self).paused,
            !final(self).finished,
            final(self).sample_rate == old(self).sample_rate,
            final(self).channel_count == old(self).channel_count,
    {
        self.position = 0;
        self.paused = true;
        self.finished = false;
        self.audio_buffer = Some(buffer);
        self.buffer_length = length;
    }

    /// Pauses and discards the buffer; the transport is idle afterwards.
    /// Everything else, the position included, stays as it was.
    pub fn stop(&mut self)
        requires
            old(self).wf(),
        ensures
            final(self).wf(),
            final(self).audio_buffer is None,
            final(self).paused,
            final(self).finished == old(self).finished,
            final(self).position == old(self).position,
            final(self).buffer_length == old(self).buffer_length,
            final(self).sample_rate == old(self).sample_rate,
            final(self).channel_count == old(self).channel_count,
    {
        self.paused = true;
        self.audio_buffer = None;
    }

    /// Toggles between paused and playing. Unpausing leaves the finished
    /// state behind.
    pub fn pause(&mut self)
        requires
            old(self).wf(),
        ensures
            final(self).wf(),
            final(self).paused == !old(self).paused,
            final(self).finished == (old(self).finished && final(self).paused),
            final(self).position == old(self).position,
            final(self).audio_buffer == old(self).audio_buffer,
            final(self).buffer_length == old(self).buffer_length,
            final(self).sample_rate == old(self).sample_rate,
            final(self).channel_count == old(self).channel_count,
    {
        self.paused = !self.paused;
        if !self.paused {
            self.finished = false;
        }
    }

    /// Sets the paused state directly. Unpausing leaves the finished state
    /// behind.
    pub fn set_paused(&mut self, state: bool)
        requires
            old(self).wf(),
        ensures
            final(self).wf(),
            final(self).paused == state,
            final(self).finished == (old(self).finished && state),
            final(self).position == old(self).position,
            final(self).audio_buffer == old(self).audio_buffer,
            final(self).buffer_length == old(self).buffer_length,
            final(self).sample_rate == old(self).sample_rate,
            final(self).channel_count == old(self).channel_count,
    {
        self.paused = state;
        if !state {
            self.finished = false;
        }
    }

    /// Moves the playback position to an interleaved sample index.
    pub fn seek(&mut self, position: usize)
        requires
            old(self).wf(),
        ensures
            final(self).wf(),
            final(self).position == position,
            final(self).paused == old(self).paused,
            final(self).finished == old(self).finished,
            final(self).audio_buffer == old(self).audio_buffer,
            final(self).buffer_length == old(self).buffer_length,
            final(self).sample_rate == old(self).sample_rate,
            final(self).channel_count == old(self).channel_count,
    {
        self.position = position;
    }

    /// Whether the installed buffer has been played to its end.
    pub fn finished(&self) -> (r: bool)
        ensures
            r == self.finished,
    {
        self.finished
    }

    /// Whether the transport is paused.
    pub fn is_paused(&self) -> (r: bool)
        ensures
            r == self.paused,
    {
        self.paused
    }

    /// Nanoseconds per interleaved output sample; at least one.
    pub fn sample_length_nanos(&self) -> (r: u64)
        requires
            self.wf(),
        ensures
            r == self.period_nanos(),
            1 <= r <= 1_000_000_000,
    {
        let denom: u64 = (self.sample_rate as u64) * (self.channel_count as u64);
        proof {
            lemma_mul_strictly_positive(self.sample_rate as int, self.channel_count as int);
            lemma_div_is_ordered(denom as int, 1_000_000_000int, denom as int);
            lemma_div_by_self(denom as int);
            lemma_div_is_ordered(1int, denom as int, 1int);
        }
        1_000_000_000u64 / denom
    }

    /// The playback time: the position scaled by the sample period.
    pub fn get_time_nanos(&self) -> (r: u128)
        requires
            self.wf(),
        ensures
            r == self.position * self.period_nanos(),
    {
        let per = self.sample_length_nanos();
        proof {
            lemma_mul_upper_bound(
                self.position as int,
                usize::MAX as int,
                per as int,
                1_000_000_000int,
            );
        }
        (self.position as u128) * (per as u128)
    }

    /// The full length of the installed buffer, as a time.
    pub fn length_nanos(&self) -> (r: u128)
        requires
            self.wf(),
        ensures
            r == self.buffer_length * self.period_nanos(),
    {
        let per = self.sample_length_nanos();
        proof {
            lemma_mul_upper_bound(
                self.buffer_length as int,
                usize::MAX as int,
                per as int,
                1_000_000_000int,
            );
        }
        (self.buffer_length as u128) * (per as u128)
    }

    /// Seeks to a time: the position becomes the time divided by the sample
    /// period, rounded down. Nothing else changes — in particular not the
    /// paused state.
    pub fn set_time_nanos(&mut self, nanos: u128)
        requires
            old(self).wf(),
            nanos as int / old(self).period_nanos() <= usize::MAX,
        ensures
            final(self).wf(),
            final(self).position == nanos as int / old(self).period_nanos(),
            final(self).paused == old(self).paused,
            final(self).finished == old(self).finished,
            final(self).audio_buffer == old(self).audio_buffer,
            final(self).buffer_length == old(self).buffer_length,
            final(self).sample_rate == old(self).sample_rate,
            final(self).channel_count == old(self).channel_count,
    {
        let per = self.sample_length_nanos();
        let samples: u128 = nanos / (per as u128);
        self.seek(samples as usize);
    }
}

/// A finished transport is always paused; since a paused fill changes
/// nothing, `finished` can only be set again — by exhausting a freshly
/// installed buffer — after a new playback cleared it.
pub proof fn lemma_finished_implies_paused(s: AudioState)
    requires
        s.wf(),
        s.finished,
    ensures
        s.paused,
{
}

/// A seek to time `t` reports back `t` rounded down to a whole sample
/// period: seeking puts `t / period` into the position, the reported time is
/// that position scaled by the period again, and the two differ by less than
/// one period — whatever the paused state was and stays.
pub proof fn lemma_seek_reports_seeked_time(s: AudioState, t: int)
    requires
        s.wf(),
        0 <= t,
    ensures
        0 <= t - (t / s.period_nanos()) * s.period_nanos() < s.period_nanos(),
{
    let per = s.period_nanos();
    lemma_mul_strictly_positive(s.sample_rate as int, s.channel_count as int);
    lemma_div_is_ordered(
        s.sample_rate * s.channel_count,
        1_000_000_000int,
        s.sample_rate * s.channel_count,
    );
    lemma_div_by_self(s.sample_rate * s.channel_count);
    lemma_fundamental_div_mod(t, per);
    lemma_mod_division_less_than_divisor(t, per);
    lemma_mul_is_commutative(t / per, per);
}

} // verus!
