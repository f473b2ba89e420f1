//! The trigger and retrigger state machine of the percussive synthesizer.
//!
//! The synthesizer plays one hit at a time. A trigger while it is silent starts
//! a hit; a trigger during a hit fades the hit out quickly and starts a new one
//! once it is inaudible; further triggers while that fade runs are ignored.
//! The caller renders the samples and tells each tick whether the volume
//! envelope has finished and whether the held sample is still audible.
use vstd::prelude::*;

verus! {

/// Where the synthesizer is in its cycle.
#[derive(Clone, Copy, Debug, PartialEq, Eq, Structural)]
pub enum KickState {
    /// Silent; the next trigger starts a hit.
    Idle,
    /// A hit is playing.
    Triggered,
    /// A hit is fading out so that a new one can start.
    Retriggered,
}

/// What the caller does on a trigger.
#[derive(Clone, Copy, Debug, PartialEq, Eq, Structural)]
pub enum TriggerAction {
    /// Reset both envelopes and the oscillator's phase, and start them.
    Start,
    /// Arm the quick fade-out of the hit that is playing, at full amplitude.
    ArmFadeOut,
    /// Nothing: a new hit is already pending.
    Ignore,
}

/// What the caller does on a tick.
#[derive(Clone, Copy, Debug, PartialEq, Eq, Structural)]
pub enum TickAction {
    /// Output silence.
    Silence,
    /// Render the next sample of the hit from the envelopes and the oscillator.
    Render,
    /// Lower the fade-out amplitude by one step and scale the held sample by it.
    FadeOut,
    /// Start the pending hit (as [`TriggerAction::Start`]) and output the held
    /// sample unchanged.
    StartPending,
}

impl KickState {
    /// The state and the action that a trigger leads to.
    pub open spec fn after_trigger(self) -> (KickState, TriggerAction) {
        match self {
            KickState::Idle => (KickState::Triggered, TriggerAction::Start),
            KickState::Triggered => (KickState::Retriggered, TriggerAction::ArmFadeOut),
            KickState::Retriggered => (KickState::Retriggered, TriggerAction::Ignore),
        }
    }

    /// The state and the action of one tick. A hit whose volume envelope has
    /// finished still renders this tick and leaves the synthesizer idle; a
    /// fading hit that has become inaudible gives way to the pending one.
    pub open spec fn after_tick(self, envelope_done: bool, audible: bool) -> (
        KickState,
        TickAction,
    ) {
        match self {
            KickState::Idle => (KickState::Idle, TickAction::Silence),
            KickState::Triggered => {
                if envelope_done {
                    (KickState::Idle, TickAction::Render)
                } else {
                    (KickState::Triggered, TickAction::Render)
                }
            },
            KickState::Retriggered => {
                if audible {
                    (KickState::Retriggered, TickAction::FadeOut)
                } else {
                    (KickState::Triggered, TickAction::StartPending)
                }
            },
        }
    }

    /// A trigger; see [`KickState::after_trigger`].
    pub fn trigger(&mut self) -> (r: TriggerAction)
        ensures
            (*final(self), r) == old(self).after_trigger(),
    {
        match *self {
            KickState::Idle => {
                *self = KickState::Triggered;
                TriggerAction::Start
            },
            KickState::Triggered => {
                *self = KickState::Retriggered;
                TriggerAction::ArmFadeOut
            },
            KickState::Retriggered => TriggerAction::Ignore,
        }
    }

    /// A tick; see [`KickState::after_tick`].
    pub fn tick(&mut self, envelope_done: bool, audible: bool) -> (r: TickAction)
        ensures
            (*final(self), r) == old(self).after_tick(envelope_done, audible),
    {
        match *self {
            KickState::Idle => TickAction::Silence,
            KickState::Triggered => {
                if envelope_done {
                    *self = KickState::Idle;
                }
                TickAction::Render
            },
            KickState::Retriggered => {
                if audible {
                    TickAction::FadeOut
                } else {
                    *self = KickState::Triggered;
                    TickAction::StartPending
                }
            },
        }
    }
}

} // verus!
