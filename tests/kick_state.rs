use audio_fx::kick_state::{KickState, TickAction, TriggerAction};

#[test]
fn idle_is_silent() {
    let mut s = KickState::Idle;
    assert_eq!(s.tick(false, false), TickAction::Silence);
    assert_eq!(s.tick(true, true), TickAction::Silence);
    assert_eq!(s, KickState::Idle);
}

#[test]
fn trigger_starts_a_hit() {
    let mut s = KickState::Idle;
    assert_eq!(s.trigger(), TriggerAction::Start);
    assert_eq!(s, KickState::Triggered);
    assert_eq!(s.tick(false, true), TickAction::Render);
    assert_eq!(s, KickState::Triggered);
}

#[test]
fn finished_envelope_renders_once_then_idles() {
    let mut s = KickState::Triggered;
    assert_eq!(s.tick(true, true), TickAction::Render);
    assert_eq!(s, KickState::Idle);
    assert_eq!(s.tick(false, false), TickAction::Silence);
}

#[test]
fn retrigger_fades_then_starts_pending_hit() {
    let mut s = KickState::Triggered;
    assert_eq!(s.trigger(), TriggerAction::ArmFadeOut);
    assert_eq!(s, KickState::Retriggered);
    assert_eq!(s.tick(false, true), TickAction::FadeOut);
    assert_eq!(s.tick(false, true), TickAction::FadeOut);
    assert_eq!(s.tick(false, false), TickAction::StartPending);
    assert_eq!(s, KickState::Triggered);
}

#[test]
fn trigger_during_fade_is_ignored() {
    let mut s = KickState::Retriggered;
    assert_eq!(s.trigger(), TriggerAction::Ignore);
    assert_eq!(s, KickState::Retriggered);
}
