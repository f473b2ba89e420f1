//! Verified core of a small real-time audio effects toolkit.
//!
//! The library holds the integer logic of the delay-based effects: the
//! sample-rate scaling of the reverberation network's tuning table, the layout
//! of delay buffers inside one fixed sample arena, the self-healing check that
//! keeps those buffers bound to the arena's current address, the state
//! machine that makes delay-time changes click-free, and the trigger state
//! machine of the percussive synthesizer. The samples themselves, in floating
//! point, are the caller's.
pub mod arena;
pub mod crossfade;
pub mod kick_state;
pub mod reverb_layout;
pub mod tuning;
