//! The heartbeat schedule: the liveness cadence of the session.
//!
//! The greeting fixes the interval once. The first beat is due
//! immediately; every later beat is due one interval after the
//! previous one. The frame each beat sends is
//! [`crate::protocol::heartbeat_text`]. The embedding application
//! owns the timer; this type owns the arithmetic of when beats are
//! due.

use vstd::prelude::*;

verus! {

/// The heartbeat interval learned once from the server's greeting,
/// in milliseconds; immutable thereafter.
#[derive(Clone, Copy, PartialEq, Eq, Structural, Debug)]
pub struct HeartbeatConfig {
    pub interval: u64,
}

/// When heartbeats are due, measured on the embedding application's
/// millisecond clock.
pub struct HeartbeatSchedule {
    /// When the schedule began: the handshake's completion.
    pub started_at: u64,
    /// The learned interval; at least one millisecond.
    pub interval: u64,
    /// How many beats have fired.
    pub beats: u64,
    /// When the next beat is due.
    pub next_due: u64,
}

impl HeartbeatSchedule {
    /// The schedule's invariant: the next beat is due exactly
    /// `beats` intervals after the start. With `beats` zero that is
    /// the start itself: the first beat is immediate.
    pub open spec fn wf(self) -> bool {
        &&& 1 <= self.interval
        &&& self.next_due == self.started_at + self.beats * self.interval
    }

    /// Begins the schedule: the first beat is due at once.
    ///
    /// A zero interval is refused: it would demand a beat at every
    /// instant.
    pub fn new(now: u64, config: HeartbeatConfig) -> (r: HeartbeatSchedule)
        requires
            1 <= config.interval,
        ensures
            r.wf(),
            r.started_at == now,
            r.interval == config.interval,
            r.beats == 0,
            r.next_due == now,
    {
        HeartbeatSchedule { started_at: now, interval: config.interval, beats: 0, next_due: now }
    }

    /// Whether a beat is due at the given instant.
    pub fn due(&self, now: u64) -> (r: bool)
        ensures
            r == (now >= self.next_due),
    {
        now >= self.next_due
    }

    /// Records one fired beat: the next beat is due one interval
    /// later. The caller keeps the schedule within the clock's range.
    pub fn fire(&mut self)
        requires
            old(self).wf(),
            old(self).next_due + old(self).interval <= u64::MAX,
        ensures
            final(self).wf(),
            final(self).started_at == old(self).started_at,
            final(self).interval == old(self).interval,
            final(self).beats == old(self).beats + 1,
            final(self).next_due == old(self).next_due + old(self).interval,
    {
        proof {
            lemma_beats_below_due(*self);
            let b = self.beats as int;
            let iv = self.interval as int;
            assert((b + 1) * iv == b * iv + iv) by (nonlinear_arith);
        }
        self.beats = self.beats + 1;
        self.next_due = self.next_due + self.interval;
    }

    /// The heartbeat cadence: the first beat immediately after the
    /// handshake, then one every learned interval. On any
    /// well-formed schedule, beat number `beats` is due exactly
    /// `beats` intervals after the start.
    pub proof fn lemma_cadence(self)
        requires
            self.wf(),
        ensures
            self.next_due == self.started_at + self.beats * self.interval,
            self.beats == 0 ==> self.next_due == self.started_at,
    {
    }
}

/// On a well-formed schedule the beat count stays below the clock's
/// range: each beat moves the deadline by at least one.
proof fn lemma_beats_below_due(s: HeartbeatSchedule)
    requires
        s.wf(),
    ensures
        s.beats <= s.next_due - s.started_at,
{
    assert(s.beats * 1 <= s.beats * s.interval) by (nonlinear_arith)
        requires
            1 <= s.interval,
    ;
}

} // verus!
