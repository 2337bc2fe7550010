//! The envelope state machine on plain values: the five phases, the
//! per-voice coefficients and the transition taken at each sample.

use vstd::prelude::*;

verus! {

/// One phase of an attack, decay, sustain, release envelope, with the
/// amplitude the phase has reached where the phase keeps one.
#[derive(Clone, Copy, Debug, PartialEq, Eq, Structural)]
pub enum State {
    /// Rising towards the attack ceiling.
    Attack(i32),
    /// Falling towards the sustain level.
    Decay(i32),
    /// Held at the sustain level of the voice.
    Sustain,
    /// Falling towards silence after the note was let go.
    Release(i32),
    /// At rest.
    Silent,
}

/// The five constants of a voice, all in the caller's amplitude scale.
#[derive(Clone, Copy, Debug, PartialEq, Eq, Structural)]
pub struct Coefficients {
    /// Ceiling of the attack phase.
    pub attack_max: i32,
    /// Added at each sample of the attack phase.
    pub attack_gain: i32,
    /// Taken off at each sample of the decay phase.
    pub decay_fall: i32,
    /// Level held while the note is down.
    pub sustain_level: i32,
    /// Taken off at each sample of the release phase.
    pub release_fall: i32,
}

impl Coefficients {
    /// The three steps are positive, and one step past the attack ceiling or
    /// below the sustain level is still an `i32`.
    pub open spec fn wf(self) -> bool {
        &&& self.attack_gain > 0
        &&& self.decay_fall > 0
        &&& self.release_fall > 0
        &&& self.attack_max + self.attack_gain <= i32::MAX
        &&& self.sustain_level - self.decay_fall >= i32::MIN
    }

    /// Tests `wf` at run time, for callers that Verus does not see.
    pub fn is_valid(&self) -> (ok: bool)
        ensures
            ok == self.wf(),
    {
        self.attack_gain > 0 && self.decay_fall > 0 && self.release_fall > 0
            && self.attack_max <= i32::MAX - self.attack_gain
            && self.sustain_level >= i32::MIN + self.decay_fall
    }
}

impl State {
    /// The amplitude a voice in this phase sounds at.
    pub open spec fn level(self, c: Coefficients) -> int {
        match self {
            State::Attack(a) => a as int,
            State::Decay(a) => a as int,
            State::Sustain => c.sustain_level as int,
            State::Release(a) => a as int,
            State::Silent => 0,
        }
    }

    /// The phase that follows this one after one sample.
    ///
    /// Attack climbs by `attack_gain` while it is at or below the ceiling and
    /// drops to decay, at the ceiling, once it is above. Decay falls by
    /// `decay_fall` while it is at or above the sustain level and turns into
    /// sustain once it is below. Release falls by `release_fall` while it is
    /// at or above zero and turns into silence once it is below. Sustain and
    /// silence stay.
    pub open spec fn successor(self, c: Coefficients) -> State {
        match self {
            State::Attack(a) => if a > c.attack_max {
                State::Decay(c.attack_max)
            } else {
                State::Attack((a + c.attack_gain) as i32)
            },
            State::Decay(a) => if a < c.sustain_level {
                State::Sustain
            } else {
                State::Decay((a - c.decay_fall) as i32)
            },
            State::Sustain => State::Sustain,
            State::Release(a) => if a < 0 {
                State::Silent
            } else {
                State::Release((a - c.release_fall) as i32)
            },
            State::Silent => State::Silent,
        }
    }

    /// The phase a note-on puts the voice in: attack, from the present level.
    pub open spec fn struck(self, c: Coefficients) -> State {
        State::Attack(self.level(c) as i32)
    }

    /// The phase a note-off puts the voice in: release, from the present level.
    pub open spec fn let_go(self, c: Coefficients) -> State {
        State::Release(self.level(c) as i32)
    }

    /// Reads the amplitude of this phase.
    pub fn amplitude(&self, c: &Coefficients) -> (amp: i32)
        ensures
            amp == self.level(*c),
    {
        match self {
            State::Attack(a) => *a,
            State::Decay(a) => *a,
            State::Sustain => c.sustain_level,
            State::Release(a) => *a,
            State::Silent => 0,
        }
    }

    /// Takes one sample's transition.
    pub fn step(&self, c: &Coefficients) -> (next: State)
        requires
            c.wf(),
        ensures
            next == self.successor(*c),
    {
        match self {
            State::Attack(a) => {
                if *a > c.attack_max {
                    State::Decay(c.attack_max)
                } else {
                    State::Attack(*a + c.attack_gain)
                }
            },
            State::Decay(a) => {
                if *a < c.sustain_level {
                    State::Sustain
                } else {
                    State::Decay(*a - c.decay_fall)
                }
            },
            State::Sustain => State::Sustain,
            State::Release(a) => {
                if *a < 0 {
                    State::Silent
                } else {
                    State::Release(*a - c.release_fall)
                }
            },
            State::Silent => State::Silent,
        }
    }

    /// Starts the attack of a note from wherever the voice is.
    pub fn trigger_on(&self, c: &Coefficients) -> (next: State)
        ensures
            next == self.struck(*c),
    {
        State::Attack(self.amplitude(c))
    }

    /// Starts the release of a note from wherever the voice is.
    pub fn trigger_off(&self, c: &Coefficients) -> (next: State)
        ensures
            next == self.let_go(*c),
    {
        State::Release(self.amplitude(c))
    }

    /// The phase as one word, so that it can be read and written in a
    /// single atomic operation: the upper half holds the tag, 0 for
    /// silence, 1 for attack, 2 for decay, 3 for sustain, 4 for release;
    /// the lower half holds the amplitude, raised by 2^31 to make it
    /// unsigned, or 0 where the phase keeps none.
    pub open spec fn word(self) -> u64 {
        match self {
            State::Silent => 0,
            State::Attack(a) => (0x1_0000_0000 + (a + 0x8000_0000)) as u64,
            State::Decay(a) => (0x2_0000_0000 + (a + 0x8000_0000)) as u64,
            State::Sustain => 0x3_0000_0000,
            State::Release(a) => (0x4_0000_0000 + (a + 0x8000_0000)) as u64,
        }
    }

    /// The phase that a word stands for. A word with a tag above 4 stands
    /// for silence.
    pub open spec fn of_word(word: u64) -> State {
        let tag = word / 0x1_0000_0000;
        let amplitude = (word % 0x1_0000_0000 - 0x8000_0000) as i32;
        if tag == 1 {
            State::Attack(amplitude)
        } else if tag == 2 {
            State::Decay(amplitude)
        } else if tag == 3 {
            State::Sustain
        } else if tag == 4 {
            State::Release(amplitude)
        } else {
            State::Silent
        }
    }

    /// A phase is read back from its word as it was: no part of one phase
    /// is ever taken for part of another.
    pub proof fn lemma_word_round_trip(self)
        ensures
            Self::of_word(self.word()) == self,
    {
    }

    /// Packs the phase into its word.
    pub fn pack(&self) -> (word: u64)
        ensures
            word == self.word(),
            Self::of_word(word) == *self,
    {
        match self {
            State::Silent => 0,
            State::Attack(a) => 0x1_0000_0000 + (*a as i64 + 0x8000_0000) as u64,
            State::Decay(a) => 0x2_0000_0000 + (*a as i64 + 0x8000_0000) as u64,
            State::Sustain => 0x3_0000_0000,
            State::Release(a) => 0x4_0000_0000 + (*a as i64 + 0x8000_0000) as u64,
        }
    }

    /// Reads a phase back from a word.
    pub fn unpack(word: u64) -> (state: State)
        ensures
            state == Self::of_word(word),
    {
        let tag = word / 0x1_0000_0000;
        let amplitude = ((word % 0x1_0000_0000) as i64 - 0x8000_0000) as i32;
        if tag == 1 {
            State::Attack(amplitude)
        } else if tag == 2 {
            State::Decay(amplitude)
        } else if tag == 3 {
            State::Sustain
        } else if tag == 4 {
            State::Release(amplitude)
        } else {
            State::Silent
        }
    }

    /// Takes one sample's transition on a word.
    pub fn step_word(word: u64, c: &Coefficients) -> (next: u64)
        requires
            c.wf(),
        ensures
            next == Self::of_word(word).successor(*c).word(),
    {
        Self::unpack(word).step(c).pack()
    }

    pub fn is_attack(&self) -> (b: bool)
        ensures
            b == (*self is Attack),
    {
        match self {
            State::Attack(_) => true,
            _ => false,
        }
    }

    pub fn is_decay(&self) -> (b: bool)
        ensures
            b == (*self is Decay),
    {
        match self {
            State::Decay(_) => true,
            _ => false,
        }
    }

    pub fn is_sustain(&self) -> (b: bool)
        ensures
            b == (*self is Sustain),
    {
        match self {
            State::Sustain => true,
            _ => false,
        }
    }

    pub fn is_release(&self) -> (b: bool)
        ensures
            b == (*self is Release),
    {
        match self {
            State::Release(_) => true,
            _ => false,
        }
    }

    pub fn is_silent(&self) -> (b: bool)
        ensures
            b == (*self is Silent),
    {
        match self {
            State::Silent => true,
            _ => false,
        }
    }
}

} // verus!
