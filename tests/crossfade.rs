use audio_fx::crossfade::{bipolar_ramp, Crossfade, TapChoice, DEFAULT_CROSSFADE_SAMPLES};

const SAMPLING_RATE: f32 = 48000.0;

fn ratio(elapsed: usize, duration: usize) -> f32 {
    bipolar_ramp(elapsed, duration) as f32 / duration as f32
}

#[test]
fn simple_delay_crossfade_bounds() {
    let fade = Crossfade::new((0.01 * SAMPLING_RATE) as usize);
    let mut counter: usize = 0;

    assert_eq!(ratio(counter, fade.duration), -1.0);

    for _ in 0..fade.duration - 1 {
        counter += 1;
        let crossfade = ratio(counter, fade.duration);
        assert!(crossfade > -1.0 && crossfade < 1.0);
    }

    counter += 1;
    assert_eq!(ratio(counter, fade.duration), 1.0);
}

#[test]
fn mod_crossfade_bounds() {
    let fade = Crossfade::new(DEFAULT_CROSSFADE_SAMPLES);
    let mut counter: usize = 0;

    assert_eq!(ratio(counter, fade.duration), -1.0);

    for _ in 0..fade.duration - 1 {
        counter += 1;
        let crossfade = ratio(counter, fade.duration);
        assert!(crossfade > -1.0 && crossfade < 1.0);
    }

    counter += 1;
    assert_eq!(ratio(counter, fade.duration), 1.0);
}

#[test]
fn ramp_exact_values() {
    assert_eq!(bipolar_ramp(0, 480), -480);
    assert_eq!(bipolar_ramp(240, 480), 0);
    assert_eq!(bipolar_ramp(480, 480), 480);
    assert_eq!(bipolar_ramp(1, 4), -2);
    assert_eq!(bipolar_ramp(0, 0), 0);
}

#[test]
fn steady_state_reads_current_tap() {
    let mut fade = Crossfade::new(480);
    for _ in 0..10 {
        assert_eq!(fade.step(), TapChoice::Current);
    }
    assert!(!fade.active);
}

#[test]
fn fade_blends_then_reads_new_tap() {
    let mut fade = Crossfade::new(4);
    fade.retarget();
    assert_eq!(fade.step(), TapChoice::Blend { elapsed: 1, duration: 4 });
    assert_eq!(fade.step(), TapChoice::Blend { elapsed: 2, duration: 4 });
    assert_eq!(fade.step(), TapChoice::Blend { elapsed: 3, duration: 4 });
    assert_eq!(fade.step(), TapChoice::Current);
    assert_eq!(fade, Crossfade { active: false, elapsed: 0, duration: 4 });
    assert_eq!(fade.step(), TapChoice::Current);
}

#[test]
fn default_fade_takes_480_ticks() {
    let mut fade = Crossfade::new(DEFAULT_CROSSFADE_SAMPLES);
    fade.retarget();
    let mut blends = 0;
    while fade.step() != TapChoice::Current {
        blends += 1;
    }
    assert_eq!(blends, 479);
    assert!(!fade.active);
}

#[test]
fn zero_length_fade_reads_new_tap_directly() {
    let mut fade = Crossfade::new(0);
    fade.retarget();
    assert_eq!(fade.step(), TapChoice::Current);
    assert!(!fade.active);
}

#[test]
fn retarget_mid_fade_starts_over() {
    let mut fade = Crossfade::new(10);
    fade.retarget();
    fade.step();
    fade.step();
    fade.step();
    assert_eq!(fade.elapsed, 3);
    fade.retarget();
    assert_eq!(fade.elapsed, 0);
    assert_eq!(fade.step(), TapChoice::Blend { elapsed: 1, duration: 10 });
}

#[test]
fn shortened_duration_ends_fade() {
    let mut fade = Crossfade::new(10);
    fade.retarget();
    fade.step();
    fade.step();
    fade.set_duration(2);
    assert_eq!(fade.step(), TapChoice::Current);
    assert_eq!(fade.duration, 2);
}
