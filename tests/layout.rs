use audio_fx::arena::ArenaError;
use audio_fx::reverb_layout::{Channel, ReverbLayout, ALLPASS_STAGES, COMB_STAGES};
use audio_fx::tuning::tunings_for_rate;

#[test]
fn layout_fits_48000_sample_arena_at_48k() {
    let layout = ReverbLayout::new(48000, 48000).unwrap();
    assert_eq!(layout.sample_rate(), 48000);
    assert_eq!(layout.bindings().capacity(), 48000);
    assert_eq!(layout.bindings().len(), 24);
}

#[test]
fn layout_rejects_arena_one_short() {
    assert_eq!(ReverbLayout::new(48000, 27687).err(), Some(ArenaError::TooSmall));
    assert!(ReverbLayout::new(48000, 27688).is_ok());
    assert_eq!(ReverbLayout::new(44100, 25449).err(), Some(ArenaError::TooSmall));
    assert!(ReverbLayout::new(44100, 25450).is_ok());
}

#[test]
fn layout_rejects_empty_arena() {
    assert_eq!(ReverbLayout::new(48000, 0).err(), Some(ArenaError::TooSmall));
}

#[test]
fn layout_rejects_huge_rate() {
    assert_eq!(
        ReverbLayout::new(usize::MAX, usize::MAX / 2).err(),
        Some(ArenaError::TooSmall)
    );
    // the scaled table sums to about 0.58 of the rate, so a full arena fits
    assert!(ReverbLayout::new(usize::MAX, usize::MAX).is_ok());
}

#[test]
fn layout_spans_follow_tuning_order() {
    let layout = ReverbLayout::new(48000, 27688).unwrap();
    let t = tunings_for_rate(48000);
    let mut offset = 0;
    for stage in 0..COMB_STAGES {
        let l = layout.comb_span(Channel::Left, stage);
        assert_eq!((l.offset, l.len), (offset, t[2 * stage]));
        offset += l.len;
        let r = layout.comb_span(Channel::Right, stage);
        assert_eq!((r.offset, r.len), (offset, t[2 * stage + 1]));
        offset += r.len;
    }
    for stage in 0..ALLPASS_STAGES {
        let l = layout.allpass_span(Channel::Left, stage);
        assert_eq!((l.offset, l.len), (offset, t[16 + 2 * stage]));
        offset += l.len;
        let r = layout.allpass_span(Channel::Right, stage);
        assert_eq!((r.offset, r.len), (offset, t[16 + 2 * stage + 1]));
        offset += r.len;
    }
    assert_eq!(offset, 27688);
}

#[test]
fn layout_first_and_last_spans_at_48k() {
    let layout = ReverbLayout::new(48000, 48000).unwrap();
    let first = layout.comb_span(Channel::Left, 0);
    assert_eq!((first.offset, first.len), (0, 1214));
    let last = layout.allpass_span(Channel::Right, 3);
    assert_eq!((last.offset, last.len), (27688 - 269, 269));
}

#[test]
fn layout_check_binds_once() {
    let mut layout = ReverbLayout::new(48000, 48000).unwrap();
    assert!(layout.ensure_bound(0x1000));
    assert!(!layout.ensure_bound(0x1000));
    assert!(layout.bindings().is_bound_at(0x1000));
    assert!(layout.ensure_bound(0x8000));
    assert_eq!(layout.comb_span(Channel::Left, 0).len, 1214);
}
