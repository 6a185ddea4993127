//! Time-based interpolation of an instance pose towards a target pose.
//!
//! A pose moves from `current` to `target` over `duration` time units,
//! starting at `start_time`. The pose values themselves are opaque here;
//! this module decides, for a given time, whether the pose has settled on
//! its target or how far through the movement it is.

use vstd::prelude::*;

verus! {

/// How far a pose is through its movement at some time.
#[derive(Clone, Copy, Debug, PartialEq, Eq, Structural)]
pub enum Progress {
    /// The movement is over (or there was none): the pose is the target.
    Settled,
    /// The pose is `elapsed / duration` of the way from `current` to `target`,
    /// with `0 < duration` and `elapsed <= duration`.
    Moving { elapsed: u64, duration: u64 },
}

/// Time since `start`, or zero for a time before `start`.
pub open spec fn elapsed_since(start: u64, now: u64) -> u64 {
    if now >= start { (now - start) as u64 } else { 0 }
}

/// Progress of a movement started at `start` lasting `duration`, at `now`.
pub open spec fn progress_of(start: u64, duration: u64, now: u64) -> Progress {
    let elapsed = elapsed_since(start, now);
    if duration == 0 || elapsed > duration {
        Progress::Settled
    } else {
        Progress::Moving { elapsed, duration }
    }
}

/// A pose moving from `current` to `target` between `start_time` and
/// `start_time + duration`.
pub struct InterpolatedPose<P> {
    target: P,
    current: P,
    start_time: u64,
    duration: u64,
}

impl<P> InterpolatedPose<P> {
    /// The pose the movement ends at.
    pub closed spec fn spec_target(self) -> P {
        self.target
    }

    /// The pose the movement starts from.
    pub closed spec fn spec_current(self) -> P {
        self.current
    }

    /// When the movement starts.
    pub closed spec fn spec_start_time(self) -> u64 {
        self.start_time
    }

    /// How long the movement lasts.
    pub closed spec fn spec_duration(self) -> u64 {
        self.duration
    }

    /// Progress of this pose's movement at `now`.
    pub open spec fn progress_at(self, now: u64) -> Progress {
        progress_of(self.spec_start_time(), self.spec_duration(), now)
    }
}

impl<P: Copy> InterpolatedPose<P> {
    /// A pose resting at `transform`, with no movement.
    pub fn new(transform: P) -> (r: Self)
        ensures
            r.spec_target() == transform,
            r.spec_current() == transform,
            r.spec_start_time() == 0,
            r.spec_duration() == 0,
    {
        InterpolatedPose { target: transform, current: transform, start_time: 0, duration: 0 }
    }

    /// Sets a new target, to be reached `duration` after `current_time`; the
    /// starting pose is kept.
    pub fn update_target(&mut self, transform: &P, current_time: u64, duration: u64)
        ensures
            final(self).spec_target() == *transform,
            final(self).spec_current() == old(self).spec_current(),
            final(self).spec_start_time() == current_time,
            final(self).spec_duration() == duration,
    {
        self.target = *transform;
        self.start_time = current_time;
        self.duration = duration;
    }

    /// Starts a new movement from the old target to `new_target`, to be
    /// reached `duration` after `current_time`.
    pub fn move_target_absolute(&mut self, new_target: P, current_time: u64, duration: u64)
        ensures
            final(self).spec_current() == old(self).spec_target(),
            final(self).spec_target() == new_target,
            final(self).spec_start_time() == current_time,
            final(self).spec_duration() == duration,
    {
        self.current = self.target;
        self.target = new_target;
        self.start_time = current_time;
        self.duration = duration;
    }

    /// The pose the movement ends at.
    pub fn target(&self) -> (r: P)
        ensures
            r == self.spec_target(),
    {
        self.target
    }

    /// The pose the movement starts from.
    pub fn current(&self) -> (r: P)
        ensures
            r == self.spec_current(),
    {
        self.current
    }

    /// Where the movement stands at `current_time`: the time elapsed since
    /// its start (saturating at zero) against its duration.
    pub fn progress(&self, current_time: u64) -> (r: Progress)
        ensures
            r == self.progress_at(current_time),
    {
        let elapsed: u64 = current_time.saturating_sub(self.start_time);
        if self.duration == 0 || elapsed > self.duration {
            Progress::Settled
        } else {
            Progress::Moving { elapsed, duration: self.duration }
        }
    }
}

/// A movement in progress is between its ends: some time has a duration
/// over zero and an elapsed time within it.
pub proof fn lemma_moving_is_bounded(start: u64, duration: u64, now: u64)
    ensures
        progress_of(start, duration, now) matches Progress::Moving { elapsed, duration: d }
            ==> d == duration && 0 < d && elapsed <= d,
{
}

/// Once a movement has settled it stays settled at every later time.
pub proof fn lemma_settled_stays_settled(start: u64, duration: u64, t1: u64, t2: u64)
    requires
        t1 <= t2,
        progress_of(start, duration, t1) == Progress::Settled,
    ensures
        progress_of(start, duration, t2) == Progress::Settled,
{
}

/// The elapsed time of a movement never decreases as time goes on.
pub proof fn lemma_elapsed_monotone(start: u64, t1: u64, t2: u64)
    requires
        t1 <= t2,
    ensures
        elapsed_since(start, t1) <= elapsed_since(start, t2),
{
}

/// A movement without duration, such as that of a new pose, is settled at
/// every time.
pub proof fn lemma_no_duration_settled(start: u64, now: u64)
    ensures
        progress_of(start, 0, now) == Progress::Settled,
{
}

/// A movement of positive duration set at `now` starts at its beginning:
/// at `now` it is moving with nothing elapsed, and at `now + duration` it
/// has run its whole duration without having settled yet.
pub proof fn lemma_fresh_movement(now: u64, duration: u64)
    requires
        duration > 0,
    ensures
        progress_of(now, duration, now) == (Progress::Moving { elapsed: 0, duration }),
        now + duration <= u64::MAX ==> progress_of(now, duration, (now + duration) as u64)
            == (Progress::Moving { elapsed: duration, duration }),
{
}

} // verus!
