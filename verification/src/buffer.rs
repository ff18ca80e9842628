//! The playback buffer.
//!
//! A resampling worker publishes interleaved sample blocks through a
//! single-producer, single-consumer channel; the buffer drains that channel
//! lazily into an append-only, randomly accessible sample store. Blocks
//! arrive in production order, so the store grows monotonically and never
//! shrinks. The producer never publishes an empty block: the stream closes
//! when the sending side is dropped, and an empty block is taken as the same
//! close signal.

use vstd::prelude::*;

verus! {

/// Declares crossbeam's channel receiver so one can sit in a field. The
/// engine sees nothing of a value of it and talks to it only through
/// `chan_recv`.
#[verifier::external_type_specification]
#[verifier::external_body]
#[verifier::reject_recursive_types(T)]
pub struct ExReceiver<T>(crossbeam::channel::Receiver<T>);

/// Relies on crossbeam's `Receiver::recv`: it blocks until a message arrives
/// and fails exactly when the channel is empty and disconnected. When a block
/// arrives and what it holds depend on the producer alone, so nothing is
/// promised of the result.
#[verifier::external_body]
fn chan_recv(rx: &crossbeam::channel::Receiver<Vec<u32>>) -> (r: Option<Vec<u32>>) {
    rx.recv().ok()
}

/// An append-only sample store fed by a resample channel.
pub struct AudioBuffer {
    /// Receiving end of the resample channel.
    pub channel: crossbeam::channel::Receiver<Vec<u32>>,
    /// Interleaved samples accumulated so far.
    pub buffer: Vec<u32>,
    /// The channel reported disconnection: no more samples will ever arrive.
    pub done: bool,
}

impl AudioBuffer {
    /// An empty buffer over the receiving end of a resample channel.
    pub fn new(channel: crossbeam::channel::Receiver<Vec<u32>>) -> (r: AudioBuffer)
        ensures
            r.buffer@.len() == 0,
            !r.done,
    {
        AudioBuffer { channel, buffer: Vec::new(), done: false }
    }

    /// Produces up to `count` samples starting at `pos`, draining the channel
    /// until enough samples are buffered or the channel closes. The returned
    /// flag says the request ran past the end of everything the producer will
    /// ever publish.
    pub fn read_samples(&mut self, pos: usize, count: usize) -> (r: (Vec<u32>, bool))
        requires
            pos + count <= usize::MAX,
        ensures
            old(self).buffer@.is_prefix_of(final(self).buffer@),
            old(self).done ==> final(self).done && final(self).buffer@ == old(self).buffer@,
            !final(self).done ==> final(self).buffer@.len() >= pos + count,
            pos <= final(self).buffer@.len() ==> r.0@.len() == vstd::math::min(
                count as int,
                final(self).buffer@.len() - pos,
            ),
            pos > final(self).buffer@.len() ==> r.0@.len() == 0,
            forall|i: int| 0 <= i < r.0@.len() ==> r.0@[i] == final(self).buffer@[pos + i],
            r.1 <==> (count > 0 && pos + count > final(self).buffer@.len()),
            r.1 ==> final(self).done,
    {
        let target: usize = pos + count;
        while !self.done && self.buffer.len() < target
            invariant
                target == pos + count,
                old(self).buffer@.is_prefix_of(self.buffer@),
                old(self).done ==> self.done && self.buffer@ == old(self).buffer@,
                self.channel == old(self).channel,
            decreases
                    (if self.done {
                        0int
                    } else {
                        1int
                    }),
                    (if self.buffer@.len() >= target {
                        0int
                    } else {
                        target - self.buffer@.len()
                    }),
        {
            match chan_recv(&self.channel) {
                Some(block) => {
                    if block.len() == 0 {
                        self.done = true;
                    } else {
                        let mut incoming = block;
                        self.buffer.append(&mut incoming);
                    }
                },
                None => {
                    self.done = true;
                },
            }
        }
        let len: usize = self.buffer.len();
        let avail: usize = if pos >= len {
            0
        } else if len - pos < count {
            len - pos
        } else {
            count
        };
        let mut out: Vec<u32> = Vec::new();
        let mut i: usize = 0;
        while i < avail
            invariant
                i <= avail,
                self.buffer@.len() <= usize::MAX,
                avail == 0 || pos + avail <= self.buffer@.len(),
                out@.len() == i,
                forall|t: int| 0 <= t < i ==> out@[t] == self.buffer@[pos + t],
            decreases avail - i,
        {
            out.push(self.buffer[pos + i]);
            i = i + 1;
        }
        (out, avail < count)
    }
}

} // verus!
