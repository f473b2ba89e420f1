//! Where the reverberation network's delay stages live in its arena.
//!
//! The network runs 8 parallel comb filters and 4 series all-pass filters per
//! channel. Their buffers are the tuning table scaled to the sample rate, laid
//! end to end in the arena: the comb pairs first, then the all-pass pairs, the
//! left stage of each pair before the right one.
use vstd::prelude::*;
use crate::arena::{ArenaBindings, ArenaError, Span};
use crate::tuning::{required_capacity, scaled_tunings, tunings_for_rate};

verus! {

/// Number of comb filters per channel.
pub const COMB_STAGES: usize = 8;

/// Number of all-pass filters per channel.
pub const ALLPASS_STAGES: usize = 4;

/// One of the two stereo channels.
#[derive(Clone, Copy, Debug, PartialEq, Eq, Structural)]
pub enum Channel {
    Left,
    Right,
}

/// 0 for the left channel, 1 for the right one.
pub open spec fn channel_index(channel: Channel) -> int {
    match channel {
        Channel::Left => 0,
        Channel::Right => 1,
    }
}

/// Position in the tuning table of comb filter `stage` of `channel`.
pub open spec fn comb_index(channel: Channel, stage: int) -> int {
    2 * stage + channel_index(channel)
}

/// Position in the tuning table of all-pass filter `stage` of `channel`.
pub open spec fn allpass_index(channel: Channel, stage: int) -> int {
    2 * COMB_STAGES + 2 * stage + channel_index(channel)
}

/// The buffers of the reverberation network inside one arena.
pub struct ReverbLayout {
    sample_rate: usize,
    bindings: ArenaBindings,
}

impl ReverbLayout {
    /// The sample rate that the tuning table was scaled to.
    pub closed spec fn rate_spec(&self) -> usize {
        self.sample_rate
    }

    /// The bindings of the network's buffers.
    pub closed spec fn bindings_spec(&self) -> ArenaBindings {
        self.bindings
    }

    /// The buffers are the scaled tuning table laid end to end, inside the
    /// arena.
    pub open spec fn wf(&self) -> bool {
        &&& self.bindings_spec().wf()
        &&& self.bindings_spec().carved_from(scaled_tunings(self.rate_spec()))
    }

    /// Scales the tuning table to `sample_rate` and lays it out in an arena of
    /// `arena_len` samples. Fails, and builds nothing, when the arena is
    /// smaller than the sum of the scaled lengths.
    pub fn new(sample_rate: usize, arena_len: usize) -> (r: Result<ReverbLayout, ArenaError>)
        ensures
            match r {
                Ok(l) => {
                    &&& required_capacity(sample_rate) <= arena_len
                    &&& l.wf()
                    &&& l.rate_spec() == sample_rate
                    &&& l.bindings_spec().capacity_spec() == arena_len
                    &&& l.bindings_spec().base_spec() is None
                },
                Err(e) => required_capacity(sample_rate) > arena_len && e == ArenaError::TooSmall,
            },
    {
        let tunings = tunings_for_rate(sample_rate);
        match ArenaBindings::carve(&tunings, arena_len) {
            Ok(bindings) => Ok(ReverbLayout { sample_rate, bindings }),
            Err(e) => Err(e),
        }
    }

    /// The sample rate that the tuning table was scaled to.
    pub fn sample_rate(&self) -> (r: usize)
        ensures
            r == self.rate_spec(),
    {
        self.sample_rate
    }

    /// The bindings of the network's buffers.
    pub fn bindings(&self) -> (r: &ArenaBindings)
        ensures
            *r == self.bindings_spec(),
    {
        &self.bindings
    }

    /// The buffer of comb filter `stage` of `channel`: its length is the
    /// matching entry of the scaled tuning table, and it lies in the arena.
    pub fn comb_span(&self, channel: Channel, stage: usize) -> (r: Span)
        requires
            self.wf(),
            stage < COMB_STAGES,
        ensures
            r == self.bindings_spec().spans_spec()[comb_index(channel, stage as int)],
            r.len == scaled_tunings(self.rate_spec())[comb_index(channel, stage as int)],
            r.offset + r.len <= self.bindings_spec().capacity_spec(),
    {
        let k = match channel {
            Channel::Left => 2 * stage,
            Channel::Right => 2 * stage + 1,
        };
        self.bindings.span(k)
    }

    /// The buffer of all-pass filter `stage` of `channel`: its length is the
    /// matching entry of the scaled tuning table, and it lies in the arena.
    pub fn allpass_span(&self, channel: Channel, stage: usize) -> (r: Span)
        requires
            self.wf(),
            stage < ALLPASS_STAGES,
        ensures
            r == self.bindings_spec().spans_spec()[allpass_index(channel, stage as int)],
            r.len == scaled_tunings(self.rate_spec())[allpass_index(channel, stage as int)],
            r.offset + r.len <= self.bindings_spec().capacity_spec(),
    {
        let k = match channel {
            Channel::Left => 2 * COMB_STAGES + 2 * stage,
            Channel::Right => 2 * COMB_STAGES + 2 * stage + 1,
        };
        self.bindings.span(k)
    }

    /// The self-healing check of the network's buffers; see
    /// [`ArenaBindings::ensure_bound`].
    pub fn ensure_bound(&mut self, current_base: usize) -> (rebound: bool)
        ensures
            ArenaBindings::healed(
                old(self).bindings_spec(),
                final(self).bindings_spec(),
                current_base,
                rebound,
            ),
            final(self).rate_spec() == old(self).rate_spec(),
            final(self).wf() == old(self).wf(),
    {
        self.bindings.ensure_bound(current_base)
    }
}

} // verus!
