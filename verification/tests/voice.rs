use voicebank::bank::VoiceBank;
use voicebank::envelope::{Coefficients, State};
use voicebank::voice::AtomicState;

fn reference() -> Coefficients {
    Coefficients {
        attack_max: 98_000,
        attack_gain: 50,
        decay_fall: 2,
        sustain_level: 1_000,
        release_fall: 2,
    }
}

fn voice(state: State) -> AtomicState {
    AtomicState::new(state, 98_000, 50, 2, 1_000, 2)
}

#[test]
fn a_new_voice_keeps_its_state_and_coefficients() {
    let v = voice(State::Decay(5));
    assert_eq!(v.state(), State::Decay(5));
    assert_eq!(v.coefficients(), reference());
}

#[test]
fn set_replaces_the_state() {
    let v = voice(State::Silent);
    assert!(v.is_silent());
    v.set(State::Attack(3));
    assert_eq!(v.state(), State::Attack(3));
    assert!(!v.is_silent());
}

#[test]
fn next_returns_the_amplitude_before_the_transition() {
    let v = voice(State::Attack(100));
    assert_eq!(v.next(), 100);
    assert_eq!(v.state(), State::Attack(150));
    assert_eq!(v.next(), 150);
    assert_eq!(v.next(), 200);
}

#[test]
fn advance_hands_back_the_state_it_left() {
    let v = voice(State::Attack(98_001));
    assert_eq!(v.advance(), State::Attack(98_001));
    assert_eq!(v.advance(), State::Decay(98_000));
    assert_eq!(v.state(), State::Decay(97_998));
}

#[test]
fn next_from_silent_is_zero_and_stays_silent() {
    let v = voice(State::Silent);
    for _ in 0..100 {
        assert_eq!(v.next(), 0);
        assert!(v.is_silent());
    }
}

#[test]
fn next_from_sustain_is_the_sustain_level() {
    let v = voice(State::Sustain);
    for _ in 0..100 {
        assert_eq!(v.next(), 1_000);
        assert_eq!(v.state(), State::Sustain);
    }
}

#[test]
fn peek_reads_without_moving() {
    let v = voice(State::Release(77));
    assert_eq!(v.peek(), 77);
    assert_eq!(v.peek(), 77);
    assert_eq!(v.state(), State::Release(77));
    v.set(State::Sustain);
    assert_eq!(v.peek(), 1_000);
    v.set(State::Silent);
    assert_eq!(v.peek(), 0);
}

#[test]
fn trigger_off_in_attack_releases_from_the_same_level() {
    let v = voice(State::Attack(0));
    for _ in 0..10 {
        v.next();
    }
    assert_eq!(v.state(), State::Attack(500));
    v.trigger_off();
    assert_eq!(v.state(), State::Release(500));
    assert_eq!(v.next(), 500);
    assert_eq!(v.next(), 498);
}

#[test]
fn trigger_on_in_release_attacks_from_the_same_level() {
    let v = voice(State::Release(640));
    v.trigger_on();
    assert_eq!(v.state(), State::Attack(640));
    assert_eq!(v.next(), 640);
    assert_eq!(v.next(), 690);
}

#[test]
fn a_clone_is_a_voice_of_its_own() {
    let v = voice(State::Attack(10));
    let w = v.clone();
    assert_eq!(w.state(), State::Attack(10));
    assert_eq!(w.coefficients(), v.coefficients());
    w.next();
    assert_eq!(v.state(), State::Attack(10));
    assert_eq!(w.state(), State::Attack(60));
}

#[test]
fn a_full_note_runs_through_every_phase() {
    let v = voice(State::Silent);
    v.trigger_on();
    let mut samples = 0;
    while v.state().is_attack() {
        v.next();
        samples += 1;
    }
    assert_eq!(samples, 98_000 / 50 + 2);
    assert_eq!(v.state(), State::Decay(98_000));
    samples = 0;
    while v.state().is_decay() {
        v.next();
        samples += 1;
    }
    assert_eq!(samples, (98_000 - 1_000) / 2 + 2);
    assert_eq!(v.state(), State::Sustain);
    v.trigger_off();
    assert_eq!(v.state(), State::Release(1_000));
    samples = 0;
    while v.state().is_release() {
        v.next();
        samples += 1;
    }
    assert_eq!(samples, 1_000 / 2 + 2);
    assert!(v.is_silent());
    assert_eq!(v.next(), 0);
}

#[test]
fn concurrent_advances_form_one_run_of_the_table() {
    let threads = 4;
    let each = 20_000;
    let v = voice(State::Attack(0));
    let mut seen: Vec<State> = Vec::new();
    crossbeam::scope(|scope| {
        let handles: Vec<_> = (0..threads)
            .map(|_| {
                scope.spawn(|_| {
                    let mut mine = Vec::with_capacity(each);
                    for _ in 0..each {
                        mine.push(v.advance());
                    }
                    mine
                })
            })
            .collect();
        for h in handles {
            seen.extend(h.join().unwrap());
        }
    })
    .unwrap();

    // one thread taking as many samples
    let c = reference();
    let mut expected: Vec<State> = Vec::new();
    let mut s = State::Attack(0);
    for _ in 0..threads * each {
        expected.push(s);
        s = s.step(&c);
    }
    assert_eq!(v.state(), s);

    let key = |s: &State| match *s {
        State::Attack(a) => (0, a),
        State::Decay(a) => (1, a),
        State::Sustain => (2, 0),
        State::Release(a) => (3, a),
        State::Silent => (4, 0),
    };
    seen.sort_by_key(key);
    expected.sort_by_key(key);
    assert_eq!(seen, expected);
}

#[test]
fn concurrent_triggers_and_advances_never_tear_a_state() {
    let v = voice(State::Silent);
    crossbeam::scope(|scope| {
        scope.spawn(|_| {
            for i in 0..20_000 {
                if i % 2 == 0 {
                    v.trigger_on();
                } else {
                    v.trigger_off();
                }
            }
        });
        for _ in 0..2 {
            scope.spawn(|_| {
                for _ in 0..20_000 {
                    // from silence no level leaves the range between one
                    // release step below zero and one attack step above the ceiling
                    let amp = v.next();
                    assert!(-2 <= amp && amp <= 98_050);
                }
            });
        }
    })
    .unwrap();
}

#[test]
fn a_bank_holds_silent_voices_with_the_same_coefficients() {
    let bank = VoiceBank::new(23, reference());
    assert_eq!(bank.len(), 23);
    for i in 0..23 {
        assert!(bank.voice(i).is_silent());
        assert_eq!(bank.voice(i).coefficients(), reference());
    }
    let none = VoiceBank::new(0, reference());
    assert_eq!(none.len(), 0);
}

#[test]
fn a_bank_triggers_one_voice_and_leaves_the_others() {
    let bank = VoiceBank::new(23, reference());
    bank.trigger_on(4);
    assert_eq!(bank.next(4), 0);
    assert_eq!(bank.next(4), 50);
    for i in 0..23 {
        if i != 4 {
            assert!(bank.voice(i).is_silent());
            assert_eq!(bank.next(i), 0);
        }
    }
    bank.trigger_off(4);
    assert_eq!(bank.voice(4).state(), State::Release(100));
    bank.trigger_on(22);
    assert_eq!(bank.voice(22).state(), State::Attack(0));
}

#[test]
fn voices_are_driven_without_a_lock_on_a_64_bit_machine() {
    if std::mem::size_of::<usize>() == 8 {
        assert!(AtomicState::is_lock_free());
    }
}

#[test]
fn a_bank_of_given_voices_keeps_each_as_it_is() {
    let soft = AtomicState::new(State::Silent, 500, 5, 1, 100, 1);
    let hard = AtomicState::new(State::Sustain, 98_000, 50, 2, 1_000, 2);
    let bank = VoiceBank::from_voices(vec![soft, hard]);
    assert_eq!(bank.len(), 2);
    assert_eq!(bank.voice(0).coefficients().attack_max, 500);
    assert_eq!(bank.voice(1).coefficients().attack_max, 98_000);
    assert_eq!(bank.next(1), 1_000);
    bank.trigger_on(0);
    assert_eq!(bank.next(0), 0);
    assert_eq!(bank.next(0), 5);
}
