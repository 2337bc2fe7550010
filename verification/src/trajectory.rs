//! What a voice does over many samples: the phase reached after any number
//! of transitions, and what holds of it in each phase.

use vstd::prelude::*;
use crate::envelope::{Coefficients, State};

verus! {

/// Multiples of a positive step do not go below zero, and the next multiple
/// is one step further.
proof fn lemma_multiples(k: nat, step: int)
    requires
        step > 0,
    ensures
        k * step >= 0,
        (k + 1) * step == k * step + step,
        0 * step == 0,
{
    assert(k * step >= 0 && (k + 1) * step == k * step + step && 0 * step == 0)
        by (nonlinear_arith)
        requires
            step > 0,
            k >= 0,
    ;
}

/// The number of whole steps in a gap that is not negative, plus one, is
/// the first number of steps that goes past the gap.
proof fn lemma_steps_past(gap: int, step: int) -> (k: nat)
    requires
        gap >= 0,
        step > 0,
    ensures
        k == gap / step + 1,
        (k - 1) * step <= gap < k * step,
{
    let q = gap / step;
    assert(q >= 0 && q * step <= gap < q * step + step) by (nonlinear_arith)
        requires
            gap >= 0,
            step > 0,
            q == gap / step,
    ;
    lemma_multiples(q as nat, step);
    (q + 1) as nat
}

impl State {
    /// The phase reached from this one after `n` samples.
    pub open spec fn after(self, c: Coefficients, n: nat) -> State
        decreases n,
    {
        if n == 0 {
            self
        } else {
            self.successor(c).after(c, (n - 1) as nat)
        }
    }

    /// The number of samples after which an attack that starts at `a` has
    /// turned to decay.
    pub open spec fn attack_length(c: Coefficients, a: int) -> nat {
        if a > c.attack_max {
            1
        } else {
            ((c.attack_max - a) / (c.attack_gain as int) + 2) as nat
        }
    }

    /// The number of samples after which a decay that starts at `a` has
    /// turned to sustain.
    pub open spec fn decay_length(c: Coefficients, a: int) -> nat {
        if a < c.sustain_level {
            1
        } else {
            ((a - c.sustain_level) / (c.decay_fall as int) + 2) as nat
        }
    }

    /// The number of samples after which a release that starts at `a` has
    /// turned to silence.
    pub open spec fn release_length(c: Coefficients, a: int) -> nat {
        if a < 0 {
            1
        } else {
            (a / (c.release_fall as int) + 2) as nat
        }
    }

    /// Taking `m` samples and then `n` more is taking `m + n`.
    pub proof fn lemma_after_split(self, c: Coefficients, m: nat, n: nat)
        ensures
            self.after(c, m + n) == self.after(c, m).after(c, n),
        decreases m,
    {
        if m > 0 {
            self.successor(c).lemma_after_split(c, (m - 1) as nat, n);
            assert((m + n - 1) as nat == (m - 1) as nat + n);
        }
    }

    /// A silent voice stays silent, at amplitude zero, however long it runs.
    pub proof fn lemma_silent_stays(c: Coefficients, n: nat)
        ensures
            State::Silent.after(c, n) == State::Silent,
            State::Silent.after(c, n).level(c) == 0,
        decreases n,
    {
        if n > 0 {
            Self::lemma_silent_stays(c, (n - 1) as nat);
        }
    }

    /// A sustained voice stays sustained, at the sustain level, however long
    /// it runs.
    pub proof fn lemma_sustain_stays(c: Coefficients, n: nat)
        ensures
            State::Sustain.after(c, n) == State::Sustain,
            State::Sustain.after(c, n).level(c) == c.sustain_level,
        decreases n,
    {
        if n > 0 {
            Self::lemma_sustain_stays(c, (n - 1) as nat);
        }
    }

    /// While the attack has not passed its ceiling, it climbs in even
    /// steps: after `n` samples, the last of which started at or below the
    /// ceiling, the voice is in attack at `a + n * attack_gain`.
    pub proof fn lemma_attack_climbs(c: Coefficients, a: i32, n: nat)
        requires
            c.wf(),
            n >= 1 ==> a + (n - 1) * c.attack_gain <= c.attack_max,
        ensures
            a + n * c.attack_gain <= i32::MAX,
            State::Attack(a).after(c, n) == State::Attack((a + n * c.attack_gain) as i32),
        decreases n,
    {
        let g = c.attack_gain as int;
        lemma_multiples(0, g);
        if n > 0 {
            let m = (n - 1) as nat;
            lemma_multiples(m, g);
            if m > 0 {
                lemma_multiples((m - 1) as nat, g);
            }
            Self::lemma_attack_climbs(c, (a + g) as i32, m);
        }
    }

    /// Within the attack, each amplitude is exactly `attack_gain` above the
    /// one before it, and so strictly above it.
    pub proof fn lemma_attack_rises_by_gain(c: Coefficients, a: i32, n: nat)
        requires
            c.wf(),
            n >= 1,
            a + (n - 1) * c.attack_gain <= c.attack_max,
        ensures
            State::Attack(a).after(c, n).level(c) == State::Attack(a).after(
                c,
                (n - 1) as nat,
            ).level(c) + c.attack_gain,
            State::Attack(a).after(c, n).level(c) > State::Attack(a).after(
                c,
                (n - 1) as nat,
            ).level(c),
    {
        let m = (n - 1) as nat;
        lemma_multiples(m, c.attack_gain as int);
        if m > 0 {
            lemma_multiples((m - 1) as nat, c.attack_gain as int);
        }
        Self::lemma_attack_climbs(c, a, n);
        Self::lemma_attack_climbs(c, a, m);
    }

    /// The attack ends one sample after it has passed its ceiling: if the
    /// `n`-th sample is the first to start above the ceiling, the voice is
    /// in decay, at the ceiling, after `n + 1` samples.
    pub proof fn lemma_attack_turns_to_decay(c: Coefficients, a: i32, n: nat)
        requires
            c.wf(),
            n >= 1 ==> a + (n - 1) * c.attack_gain <= c.attack_max,
            a + n * c.attack_gain > c.attack_max,
        ensures
            State::Attack(a).after(c, n + 1) == State::Decay(c.attack_max),
    {
        Self::lemma_attack_climbs(c, a, n);
        State::Attack(a).lemma_after_split(c, n, 1);
        let top = State::Attack((a + n * c.attack_gain) as i32);
        assert(top.after(c, 1) == top.successor(c).after(c, 0));
    }

    /// An attack turns to decay, at the ceiling, after exactly
    /// `attack_length` samples.
    pub proof fn lemma_attack_reaches_decay(c: Coefficients, a: i32)
        requires
            c.wf(),
        ensures
            State::Attack(a).after(c, Self::attack_length(c, a as int)) == State::Decay(
                c.attack_max,
            ),
    {
        let g = c.attack_gain as int;
        lemma_multiples(0, g);
        if a > c.attack_max {
            Self::lemma_attack_turns_to_decay(c, a, 0);
        } else {
            let k = lemma_steps_past(c.attack_max - a, g);
            Self::lemma_attack_turns_to_decay(c, a, k);
        }
    }

    /// While the decay has not gone below the sustain level, it sinks in
    /// even steps: after `n` samples, the last of which started at or above
    /// the sustain level, the voice is in decay at `a - n * decay_fall`.
    pub proof fn lemma_decay_falls(c: Coefficients, a: i32, n: nat)
        requires
            c.wf(),
            n >= 1 ==> a - (n - 1) * c.decay_fall >= c.sustain_level,
        ensures
            a - n * c.decay_fall >= i32::MIN,
            State::Decay(a).after(c, n) == State::Decay((a - n * c.decay_fall) as i32),
        decreases n,
    {
        let f = c.decay_fall as int;
        lemma_multiples(0, f);
        if n > 0 {
            let m = (n - 1) as nat;
            lemma_multiples(m, f);
            if m > 0 {
                lemma_multiples((m - 1) as nat, f);
            }
            Self::lemma_decay_falls(c, (a - f) as i32, m);
        }
    }

    /// Within the decay, each amplitude is exactly `decay_fall` below the
    /// one before it, and so strictly below it.
    pub proof fn lemma_decay_sinks_by_fall(c: Coefficients, a: i32, n: nat)
        requires
            c.wf(),
            n >= 1,
            a - (n - 1) * c.decay_fall >= c.sustain_level,
        ensures
            State::Decay(a).after(c, n).level(c) == State::Decay(a).after(
                c,
                (n - 1) as nat,
            ).level(c) - c.decay_fall,
            State::Decay(a).after(c, n).level(c) < State::Decay(a).after(
                c,
                (n - 1) as nat,
            ).level(c),
    {
        let m = (n - 1) as nat;
        lemma_multiples(m, c.decay_fall as int);
        if m > 0 {
            lemma_multiples((m - 1) as nat, c.decay_fall as int);
        }
        Self::lemma_decay_falls(c, a, n);
        Self::lemma_decay_falls(c, a, m);
    }

    /// The decay ends one sample after it has gone below the sustain level:
    /// if the `n`-th sample is the first to start below it, the voice is
    /// sustained after `n + 1` samples.
    pub proof fn lemma_decay_turns_to_sustain(c: Coefficients, a: i32, n: nat)
        requires
            c.wf(),
            n >= 1 ==> a - (n - 1) * c.decay_fall >= c.sustain_level,
            a - n * c.decay_fall < c.sustain_level,
        ensures
            State::Decay(a).after(c, n + 1) == State::Sustain,
    {
        Self::lemma_decay_falls(c, a, n);
        State::Decay(a).lemma_after_split(c, n, 1);
        let low = State::Decay((a - n * c.decay_fall) as i32);
        assert(low.after(c, 1) == low.successor(c).after(c, 0));
    }

    /// A decaying voice comes to sustain and stays there: from
    /// `decay_length` samples on it is sustained.
    pub proof fn lemma_decay_reaches_sustain(c: Coefficients, a: i32, n: nat)
        requires
            c.wf(),
            n >= Self::decay_length(c, a as int),
        ensures
            State::Decay(a).after(c, n) == State::Sustain,
    {
        let f = c.decay_fall as int;
        lemma_multiples(0, f);
        let k: nat = if a < c.sustain_level {
            0
        } else {
            lemma_steps_past(a - c.sustain_level, f)
        };
        Self::lemma_decay_turns_to_sustain(c, a, k);
        let rest = (n - (k + 1)) as nat;
        State::Decay(a).lemma_after_split(c, k + 1, rest);
        Self::lemma_sustain_stays(c, rest);
        assert(k + 1 + rest == n);
    }

    /// While the release has not gone below zero, it sinks in even steps:
    /// after `n` samples, the last of which started at or above zero, the
    /// voice is in release at `a - n * release_fall`.
    pub proof fn lemma_release_falls(c: Coefficients, a: i32, n: nat)
        requires
            c.wf(),
            n >= 1 ==> a - (n - 1) * c.release_fall >= 0,
        ensures
            a - n * c.release_fall >= i32::MIN,
            State::Release(a).after(c, n) == State::Release((a - n * c.release_fall) as i32),
        decreases n,
    {
        let f = c.release_fall as int;
        lemma_multiples(0, f);
        if n > 0 {
            let m = (n - 1) as nat;
            lemma_multiples(m, f);
            if m > 0 {
                lemma_multiples((m - 1) as nat, f);
            }
            Self::lemma_release_falls(c, (a - f) as i32, m);
        }
    }

    /// Within the release, each amplitude is exactly `release_fall` below
    /// the one before it, and so strictly below it.
    pub proof fn lemma_release_sinks_by_fall(c: Coefficients, a: i32, n: nat)
        requires
            c.wf(),
            n >= 1,
            a - (n - 1) * c.release_fall >= 0,
        ensures
            State::Release(a).after(c, n).level(c) == State::Release(a).after(
                c,
                (n - 1) as nat,
            ).level(c) - c.release_fall,
            State::Release(a).after(c, n).level(c) < State::Release(a).after(
                c,
                (n - 1) as nat,
            ).level(c),
    {
        let m = (n - 1) as nat;
        lemma_multiples(m, c.release_fall as int);
        if m > 0 {
            lemma_multiples((m - 1) as nat, c.release_fall as int);
        }
        Self::lemma_release_falls(c, a, n);
        Self::lemma_release_falls(c, a, m);
    }

    /// The release ends one sample after it has gone below zero: if the
    /// `n`-th sample is the first to start below zero, the voice is silent
    /// after `n + 1` samples.
    pub proof fn lemma_release_turns_to_silence(c: Coefficients, a: i32, n: nat)
        requires
            c.wf(),
            n >= 1 ==> a - (n - 1) * c.release_fall >= 0,
            a - n * c.release_fall < 0,
        ensures
            State::Release(a).after(c, n + 1) == State::Silent,
    {
        Self::lemma_release_falls(c, a, n);
        State::Release(a).lemma_after_split(c, n, 1);
        let low = State::Release((a - n * c.release_fall) as i32);
        assert(low.after(c, 1) == low.successor(c).after(c, 0));
    }

    /// A released voice falls silent and stays so: from `release_length`
    /// samples on it is silent, at amplitude zero.
    pub proof fn lemma_release_reaches_silence(c: Coefficients, a: i32, n: nat)
        requires
            c.wf(),
            n >= Self::release_length(c, a as int),
        ensures
            State::Release(a).after(c, n) == State::Silent,
            State::Release(a).after(c, n).level(c) == 0,
    {
        let f = c.release_fall as int;
        lemma_multiples(0, f);
        let k: nat = if a < 0 {
            0
        } else {
            lemma_steps_past(a as int, f)
        };
        Self::lemma_release_turns_to_silence(c, a, k);
        let rest = (n - (k + 1)) as nat;
        State::Release(a).lemma_after_split(c, k + 1, rest);
        Self::lemma_silent_stays(c, rest);
        assert(k + 1 + rest == n);
    }

    /// A note-off in attack leads straight to release at the same
    /// amplitude, and a note-on in release straight to attack at the same
    /// amplitude.
    pub proof fn lemma_triggers_swap_attack_and_release(c: Coefficients, a: i32)
        ensures
            State::Attack(a).let_go(c) == State::Release(a),
            State::Release(a).struck(c) == State::Attack(a),
    {
    }

    /// A note-on or a note-off changes the phase and keeps the amplitude:
    /// from any phase the level after the trigger is the level before it.
    pub proof fn lemma_triggers_keep_level(self, c: Coefficients)
        ensures
            self.struck(c) is Attack,
            self.let_go(c) is Release,
            self.struck(c).level(c) == self.level(c),
            self.let_go(c).level(c) == self.level(c),
    {
    }

    /// Whatever a voice was doing, a note-on that is held brings it to
    /// sustain for good: once the attack from its level and the decay from
    /// the ceiling have run their lengths, it is sustained.
    pub proof fn lemma_note_on_reaches_sustain(self, c: Coefficients, n: nat)
        requires
            c.wf(),
            n >= Self::attack_length(c, self.level(c)) + Self::decay_length(
                c,
                c.attack_max as int,
            ),
        ensures
            self.struck(c).after(c, n) == State::Sustain,
    {
        let a = self.level(c) as i32;
        let up = Self::attack_length(c, a as int);
        let down = (n - up) as nat;
        Self::lemma_attack_reaches_decay(c, a);
        State::Attack(a).lemma_after_split(c, up, down);
        Self::lemma_decay_reaches_sustain(c, c.attack_max, down);
        assert(up + down == n);
    }

    /// Whatever a voice was doing, a note-off silences it for good within
    /// `release_length` samples of its level.
    pub proof fn lemma_note_off_reaches_silence(self, c: Coefficients, n: nat)
        requires
            c.wf(),
            n >= Self::release_length(c, self.level(c)),
        ensures
            self.let_go(c).after(c, n) == State::Silent,
            self.let_go(c).after(c, n).level(c) == 0,
    {
        Self::lemma_release_reaches_silence(c, self.level(c) as i32, n);
    }
}

} // verus!
