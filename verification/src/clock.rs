//! Clocks that screens synchronise against, in milliseconds.
//!
//! A clock holds a reference time; while running, the real time elapsed since
//! the reference was set is added on top. `SyncClock` reads the machine's
//! monotonic time, so how far the clock has advanced between two reads is not
//! predictable — the contracts state only what holds of every reading.

use vstd::prelude::*;

verus! {

/// A transport-synchronised clock.
pub trait Clock {
    /// Whether the clock is paused.
    spec fn paused_spec(&self) -> bool;

    /// The reference time, in milliseconds.
    spec fn time_spec(&self) -> u32;

    /// The clock's total length, in milliseconds.
    spec fn length_spec(&self) -> u32;

    /// Re-anchors the clock at `time`.
    fn set_time(&mut self, time: u32)
        ensures
            final(self).time_spec() == time,
            final(self).paused_spec() == old(self).paused_spec(),
            final(self).length_spec() == old(self).length_spec(),
    ;

    /// The current time: the reference time while paused, never less than the
    /// reference time while running.
    fn get_time(&mut self) -> (r: u32)
        ensures
            old(self).paused_spec() ==> r == old(self).time_spec() && final(self).paused_spec()
                && final(self).time_spec() == old(self).time_spec(),
            !old(self).paused_spec() ==> r >= old(self).time_spec(),
            final(self).length_spec() == old(self).length_spec(),
    ;

    /// Whether the clock is paused.
    fn is_paused(&self) -> (r: bool)
        ensures
            r == self.paused_spec(),
    ;

    /// Pauses or resumes, re-anchoring the clock at `time`.
    fn set_paused(&mut self, value: bool, time: u32)
        ensures
            final(self).paused_spec() == value,
            final(self).time_spec() == time,
            final(self).length_spec() == old(self).length_spec(),
    ;

    /// Flips between paused and running, re-anchoring the clock at `time`.
    fn toggle_paused(&mut self, time: u32)
        ensures
            final(self).paused_spec() == !old(self).paused_spec(),
            final(self).time_spec() == time,
            final(self).length_spec() == old(self).length_spec(),
    ;

    /// Sets the clock's total length.
    fn set_length(&mut self, value: u32)
        ensures
            final(self).length_spec() == value,
            final(self).paused_spec() == old(self).paused_spec(),
            final(self).time_spec() == old(self).time_spec(),
    ;

    /// The clock's total length.
    fn get_length(&self) -> (r: u32)
        ensures
            r == self.length_spec(),
    ;
}

/// Declares the instant crate's monotonic time stamp (the platform's
/// `Instant`) so one can sit in a field; a value of it is opaque.
#[verifier::external_type_specification]
#[verifier::external_body]
pub struct ExInstant(instant::Instant);

/// Relies on `instant::Instant::now`: a monotonic time stamp. Where it falls
/// depends on the machine, so nothing is promised.
#[verifier::external_body]
fn now_instant() -> (r: instant::Instant) {
    instant::Instant::now()
}

/// Relies on `Instant::duration_since`, which reports the time from
/// `earlier` to `later` and zero when `earlier` is the later one; the result
/// is read out in whole milliseconds, truncated to 32 bits. How much time
/// passed depends on the machine, so nothing is promised.
#[verifier::external_body]
fn millis_between(later: &instant::Instant, earlier: &instant::Instant) -> (r: u32) {
    later.duration_since(*earlier).as_millis() as u32
}

/// A clock anchored to the machine's monotonic time. While running it
/// reports the anchor plus the real time elapsed since the anchor was set,
/// saturating rather than wrapping, and pauses itself at its length once the
/// reported time reaches it.
pub struct SyncClock {
    /// When the anchor was set.
    pub last_pause: instant::Instant,
    /// The anchor: the clock's time when it was last re-anchored.
    pub last_time: u32,
    /// Whether the clock is paused.
    pub paused: bool,
    /// The clock's total length.
    pub length: u32,
}

impl SyncClock {
    /// A paused clock at time zero with length zero.
    pub fn new() -> (r: Self)
        ensures
            r.paused,
            r.last_time == 0,
            r.length == 0,
    {
        SyncClock { last_pause: now_instant(), last_time: 0, paused: true, length: 0 }
    }
}

impl Clock for SyncClock {
    open spec fn paused_spec(&self) -> bool {
        self.paused
    }

    open spec fn time_spec(&self) -> u32 {
        self.last_time
    }

    open spec fn length_spec(&self) -> u32 {
        self.length
    }

    fn set_time(&mut self, time: u32) {
        self.last_pause = now_instant();
        self.last_time = time;
    }

    fn get_time(&mut self) -> (r: u32) {
        if self.paused {
            self.last_time
        } else {
            let now = now_instant();
            let diff = millis_between(&now, &self.last_pause);
            let time = if diff <= u32::MAX - self.last_time {
                diff + self.last_time
            } else {
                u32::MAX
            };
            if time >= self.length {
                self.paused = true;
                self.last_time = self.length;
            }
            time
        }
    }

    fn is_paused(&self) -> (r: bool) {
        self.paused
    }

    fn set_paused(&mut self, value: bool, time: u32) {
        self.paused = value;
        self.last_pause = now_instant();
        self.last_time = time;
    }

    fn toggle_paused(&mut self, time: u32) {
        self.paused = !self.paused;
        self.last_pause = now_instant();
        self.last_time = time;
    }

    fn set_length(&mut self, value: u32) {
        self.length = value;
    }

    fn get_length(&self) -> (r: u32) {
        self.length
    }
}

} // verus!
