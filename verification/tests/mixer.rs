use voicebank::bank::VoiceBank;
use voicebank::envelope::{Coefficients, State};
use voicebank::mixer::{
    frame_count, voice_pitch, write_data, Gain, Mixer, PhaseClock, LOWEST_VOICE, PITCHES,
};

fn reference() -> Coefficients {
    Coefficients {
        attack_max: 98_000,
        attack_gain: 50,
        decay_fall: 2,
        sustain_level: 1_000,
        release_fall: 2,
    }
}

#[test]
fn the_clock_wraps_after_two_seconds() {
    let mut clock = PhaseClock::new(4);
    assert_eq!(clock.ticks(), 0);
    let seen: Vec<u32> = (0..17).map(|_| clock.tick()).collect();
    assert_eq!(seen, vec![1, 2, 3, 4, 5, 6, 7, 0, 1, 2, 3, 4, 5, 6, 7, 0, 1]);
    assert_eq!(clock.ticks(), 1);
}

#[test]
fn the_clock_of_the_smallest_rate() {
    let mut clock = PhaseClock::new(1);
    assert_eq!(clock.tick(), 1);
    assert_eq!(clock.tick(), 0);
    assert_eq!(clock.tick(), 1);
}

#[test]
fn the_clock_of_the_largest_rate() {
    let mut clock = PhaseClock::new(u32::MAX / 2);
    assert_eq!(clock.tick(), 1);
    assert_eq!(clock.ticks(), 1);
}

#[test]
fn the_clock_at_a_common_rate() {
    let mut clock = PhaseClock::new(44_100);
    let mut last = 0;
    for _ in 0..88_199 {
        last = clock.tick();
    }
    assert_eq!(last, 88_199);
    assert_eq!(clock.tick(), 0);
}

#[test]
fn the_pitch_table_starts_at_the_lowest_key() {
    assert_eq!(PITCHES.len(), 51);
    assert_eq!(PITCHES[0], 27_500);
    assert_eq!(PITCHES[50], 4_186_000);
    assert_eq!(LOWEST_VOICE, 23);
}

#[test]
fn voices_take_their_pitch_from_the_middle_of_the_table() {
    assert_eq!(voice_pitch(0), 261_600);
    assert_eq!(voice_pitch(5), 440_000);
    assert_eq!(voice_pitch(22), 2_637_000);
    assert_eq!(voice_pitch(27), 4_186_000);
    for i in 0..28 {
        assert_eq!(voice_pitch(i), PITCHES[i + 23]);
    }
}

#[test]
fn pitches_in_hertz_are_those_of_the_keys() {
    assert_eq!(voice_pitch(0) as f32 / 1000.0, 261.6f32);
    assert_eq!(voice_pitch(1) as f32 / 1000.0, 293.67f32);
    assert_eq!(PITCHES[1] as f32 / 1000.0, 30.868f32);
}

#[test]
fn a_gain_is_the_square_over_the_index_plus_two() {
    assert_eq!(Gain::new(0, 0), Gain { power: 0, divisor: 2 });
    assert_eq!(Gain::new(3, 0), Gain { power: 9, divisor: 2 });
    assert_eq!(Gain::new(-3, 1), Gain { power: 9, divisor: 3 });
    assert_eq!(Gain::new(98_000, 22), Gain { power: 9_604_000_000, divisor: 24 });
    assert_eq!(
        Gain::new(i32::MIN, 5),
        Gain { power: 4_611_686_018_427_387_904, divisor: 7 }
    );
    assert_eq!(
        Gain::new(i32::MAX, 5),
        Gain { power: 4_611_686_014_132_420_609, divisor: 7 }
    );
}

#[test]
fn a_new_mixer_has_weighed_nothing() {
    let mixer = Mixer::new(48_000);
    assert_eq!(mixer.ticks(), 0);
    assert!(mixer.gains().is_empty());
}

#[test]
fn the_mixer_weighs_each_voice_before_its_transition() {
    let bank = VoiceBank::new(3, reference());
    bank.voice(0).set(State::Attack(100));
    bank.voice(1).set(State::Sustain);
    let mut mixer = Mixer::new(48_000);
    assert_eq!(mixer.next_value(&bank), 1);
    assert_eq!(
        mixer.gains(),
        &vec![
            Gain { power: 10_000, divisor: 2 },
            Gain { power: 1_000_000, divisor: 3 },
            Gain { power: 0, divisor: 4 },
        ]
    );
    assert_eq!(bank.voice(0).state(), State::Attack(150));
    assert_eq!(mixer.next_value(&bank), 2);
    assert_eq!(mixer.ticks(), 2);
    assert_eq!(
        mixer.gains(),
        &vec![
            Gain { power: 22_500, divisor: 2 },
            Gain { power: 1_000_000, divisor: 3 },
            Gain { power: 0, divisor: 4 },
        ]
    );
}

#[test]
fn the_mixer_of_an_empty_bank() {
    let bank = VoiceBank::new(0, reference());
    let mut mixer = Mixer::new(1);
    assert_eq!(mixer.next_value(&bank), 1);
    assert!(mixer.gains().is_empty());
    assert_eq!(mixer.next_value(&bank), 0);
}

fn mixed(wave: f32, gains: &[Gain]) -> f32 {
    let unit = 100_000.0f32;
    let mut sum = 0.0f32;
    for g in gains {
        sum += wave / 2.0 * (g.power as f32 / (unit * unit)) / g.divisor as f32;
    }
    sum
}

#[test]
fn a_single_note_ends_in_silence_and_a_zero_sample() {
    let c = reference();
    let bank = VoiceBank::new(23, c);
    let mut mixer = Mixer::new(44_100);
    bank.trigger_on(0);
    for _ in 0..(c.attack_max / c.attack_gain) {
        mixer.next_value(&bank);
        assert!(mixed(1.0, mixer.gains()) >= 0.0);
    }
    assert_eq!(bank.voice(0).state(), State::Attack(98_000));
    assert_eq!(mixer.gains()[0], Gain { power: 97_950 * 97_950, divisor: 2 });
    bank.trigger_off(0);
    assert_eq!(bank.voice(0).state(), State::Release(98_000));
    for _ in 0..(98_000 / c.release_fall + 2) {
        mixer.next_value(&bank);
    }
    for i in 0..23 {
        assert!(bank.voice(i).is_silent());
    }
    mixer.next_value(&bank);
    for g in mixer.gains() {
        assert_eq!(g.power, 0);
    }
    assert_eq!(mixed(1.0, mixer.gains()), 0.0);
    assert_eq!(mixed(-1.0, mixer.gains()), 0.0);
}

#[test]
fn write_data_fills_each_frame_with_its_sample() {
    let mut out = [0.0f32; 6];
    write_data(&mut out, 2, &[0.25, -0.5, 1.0]);
    assert_eq!(out, [0.25, 0.25, -0.5, -0.5, 1.0, 1.0]);
}

#[test]
fn write_data_with_one_channel_copies() {
    let mut out = [0i16; 4];
    write_data(&mut out, 1, &[1, 2, 3, 4, 5]);
    assert_eq!(out, [1, 2, 3, 4]);
}

#[test]
fn write_data_fills_a_short_last_frame() {
    let mut out = [0u16; 5];
    write_data(&mut out, 3, &[7, 9]);
    assert_eq!(out, [7, 7, 7, 9, 9]);
}

#[test]
fn write_data_on_nothing() {
    let mut out: [u16; 0] = [];
    write_data(&mut out, 2, &[]);
    assert_eq!(out.len(), 0);
}

#[test]
fn frames_are_counted_with_a_short_last_one() {
    assert_eq!(frame_count(0, 2), 0);
    assert_eq!(frame_count(1, 2), 1);
    assert_eq!(frame_count(2, 2), 1);
    assert_eq!(frame_count(3, 2), 2);
    assert_eq!(frame_count(512, 2), 256);
    assert_eq!(frame_count(5, 3), 2);
    assert_eq!(frame_count(7, 1), 7);
    assert_eq!(frame_count(3, 8), 1);
    assert_eq!(frame_count(usize::MAX, 1), usize::MAX);
    assert_eq!(frame_count(usize::MAX, 2), usize::MAX / 2 + 1);
    assert_eq!(frame_count(usize::MAX, usize::MAX), 1);
}

#[test]
fn a_request_for_frames_takes_one_sample_each() {
    // 4 frames of 2 channels
    let mut out = [0i16; 8];
    let samples: Vec<i16> = (0..frame_count(out.len(), 2) as i16).map(|k| 10 * k).collect();
    assert_eq!(samples.len(), 4);
    write_data(&mut out, 2, &samples);
    assert_eq!(out, [0, 0, 10, 10, 20, 20, 30, 30]);
}
