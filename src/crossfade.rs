//! The click-free retune of the variable delay effect.
//!
//! When the delay time changes, the effect does not jump to the new read tap:
//! for a number of samples it blends the tap at the old delay time into the tap
//! at the new one. This module decides, tick by tick, which taps to read and
//! how far the blend has gone; the samples themselves are the caller's.
use vstd::prelude::*;

verus! {

/// Crossfade length, in samples, that a delay effect starts with.
pub const DEFAULT_CROSSFADE_SAMPLES: usize = 480;

/// What one tick reads from the delay line.
#[derive(Clone, Copy, Debug, PartialEq, Eq, Structural)]
pub enum TapChoice {
    /// The tap at the current delay time, alone.
    Current,
    /// The tap at the previous delay time blended into the current one,
    /// `elapsed` samples into a fade of `duration` samples.
    Blend { elapsed: usize, duration: usize },
}

/// State of the retune: whether a fade is under way, how far it has gone, and
/// how long a fade lasts.
#[derive(Clone, Copy, Debug, PartialEq, Eq, Structural)]
pub struct Crossfade {
    pub active: bool,
    pub elapsed: usize,
    pub duration: usize,
}

/// The equal-power blend position `2 * elapsed / duration - 1`, scaled by
/// `duration`: `-duration` reads the old tap alone, `duration` the new one.
pub open spec fn ramp(elapsed: int, duration: int) -> int {
    2 * elapsed - duration
}

impl Crossfade {
    /// One tick: a fade under way advances by one sample and blends, unless that
    /// sample completes it; a completed fade, or none, reads the current tap
    /// alone and leaves the state steady.
    pub open spec fn next(self) -> (Crossfade, TapChoice) {
        if self.active && self.elapsed + 1 < self.duration {
            let elapsed = (self.elapsed + 1) as usize;
            (
                Crossfade { active: true, elapsed, duration: self.duration },
                TapChoice::Blend { elapsed, duration: self.duration },
            )
        } else {
            (Crossfade { active: false, elapsed: 0, duration: self.duration }, TapChoice::Current)
        }
    }

    /// The state after `n` ticks.
    pub open spec fn run(self, n: nat) -> Crossfade
        decreases n,
    {
        if n == 0 {
            self
        } else {
            self.run((n - 1) as nat).next().0
        }
    }

    /// A steady state whose fades last `duration` samples.
    pub fn new(duration: usize) -> (r: Crossfade)
        ensures
            r == (Crossfade { active: false, elapsed: 0, duration }),
    {
        Crossfade { active: false, elapsed: 0, duration }
    }

    /// Sets how many samples the next fades last.
    pub fn set_duration(&mut self, duration: usize)
        ensures
            *final(self) == (Crossfade { duration, ..*old(self) }),
    {
        self.duration = duration;
    }

    /// The delay time has just changed: a fade starts from its first sample.
    /// A fade under way is not completed but started over.
    pub fn retarget(&mut self)
        ensures
            *final(self) == (Crossfade { active: true, elapsed: 0, duration: old(self).duration }),
    {
        self.active = true;
        self.elapsed = 0;
    }

    /// One tick of the retune; see [`Crossfade::next`].
    pub fn step(&mut self) -> (r: TapChoice)
        ensures
            (*final(self), r) == old(self).next(),
    {
        if self.active && self.duration > 0 && self.elapsed < self.duration - 1 {
            self.elapsed = self.elapsed + 1;
            TapChoice::Blend { elapsed: self.elapsed, duration: self.duration }
        } else {
            self.active = false;
            self.elapsed = 0;
            TapChoice::Current
        }
    }
}

/// The blend position of `elapsed` samples into a fade of `duration`, as a
/// numerator over `duration`; see [`ramp`].
pub fn bipolar_ramp(elapsed: usize, duration: usize) -> (r: i128)
    requires
        elapsed <= duration,
    ensures
        r == ramp(elapsed as int, duration as int),
{
    2 * (elapsed as i128) - (duration as i128)
}

/// The blend starts on the old tap alone, ends on the new tap alone, and in
/// between stays strictly inside the range spanned by the two.
pub proof fn lemma_ramp_bounds(elapsed: int, duration: int)
    requires
        0 < duration,
        0 <= elapsed <= duration,
    ensures
        ramp(0, duration) == -duration,
        ramp(duration, duration) == duration,
        0 < elapsed < duration ==> -duration < ramp(elapsed, duration) < duration,
        ramp(elapsed, duration) <= ramp(elapsed + 1, duration),
{
}

/// A fade of `duration` samples, started by a change of delay time, blends at
/// positions 1, 2, ... up to `duration - 1`, each strictly between the two taps,
/// and on its `duration`-th tick reads the new tap alone and turns steady.
pub proof fn lemma_fade_completes(start: Crossfade, k: nat)
    requires
        start.active,
        start.elapsed == 0,
        1 <= k <= start.duration,
    ensures
        k < start.duration ==> start.run((k - 1) as nat).next().1 == (TapChoice::Blend {
            elapsed: k as usize,
            duration: start.duration,
        }) && -(start.duration as int) < ramp(k as int, start.duration as int) < start.duration,
        k == start.duration ==> start.run((k - 1) as nat).next() == ((
            Crossfade { active: false, elapsed: 0, duration: start.duration },
            TapChoice::Current,
        )),
{
    lemma_fade_position(start, (k - 1) as nat);
}

/// Before it completes, a fade has advanced by one sample per tick.
proof fn lemma_fade_position(start: Crossfade, n: nat)
    requires
        start.active,
        start.elapsed == 0,
        n < start.duration,
    ensures
        start.run(n) == (Crossfade { active: true, elapsed: n as usize, duration: start.duration }),
    decreases n,
{
    if n > 0 {
        lemma_fade_position(start, (n - 1) as nat);
    }
}

} // verus!
