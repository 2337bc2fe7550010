//! The fixed bank of voices, addressed by index.

use vstd::prelude::*;
use crate::envelope::{Coefficients, State};
use crate::voice::AtomicState;

verus! {

/// A fixed number of voices. The lowest pitch has index 0.
pub struct VoiceBank {
    voices: Vec<AtomicState>,
}

impl View for VoiceBank {
    type V = Seq<Coefficients>;

    /// The coefficients of each voice, in order.
    closed spec fn view(&self) -> Seq<Coefficients> {
        Seq::new(self.voices@.len(), |i: int| self.voices@[i]@)
    }
}

impl VoiceBank {
    /// A bank of `count` silent voices that share the coefficients `c`.
    pub fn new(count: usize, c: Coefficients) -> (bank: Self)
        requires
            c.wf(),
        ensures
            bank@.len() == count,
            forall|i: int| 0 <= i < count ==> bank@[i] == c,
    {
        let mut voices: Vec<AtomicState> = Vec::new();
        while voices.len() < count
            invariant
                c.wf(),
                voices@.len() <= count,
                forall|i: int| 0 <= i < voices@.len() ==> (#[trigger] voices@[i])@ == c,
            decreases count - voices@.len(),
        {
            voices.push(
                AtomicState::new(
                    State::Silent,
                    c.attack_max,
                    c.attack_gain,
                    c.decay_fall,
                    c.sustain_level,
                    c.release_fall,
                ),
            );
        }
        VoiceBank { voices }
    }

    /// A bank of the given voices, each with coefficients of its own.
    pub fn from_voices(voices: Vec<AtomicState>) -> (bank: Self)
        ensures
            bank@.len() == voices@.len(),
            forall|i: int| 0 <= i < voices@.len() ==> bank@[i] == (#[trigger] voices@[i])@,
    {
        VoiceBank { voices }
    }

    /// The number of voices.
    pub fn len(&self) -> (n: usize)
        ensures
            n == self@.len(),
    {
        self.voices.len()
    }

    /// The voice at `index`.
    pub fn voice(&self, index: usize) -> (v: &AtomicState)
        requires
            index < self@.len(),
        ensures
            v@ == self@[index as int],
    {
        &self.voices[index]
    }

    /// Starts the attack of the note of voice `index`.
    pub fn trigger_on(&self, index: usize)
        requires
            index < self@.len(),
    {
        self.voices[index].trigger_on()
    }

    /// Starts the release of the note of voice `index`.
    pub fn trigger_off(&self, index: usize)
        requires
            index < self@.len(),
    {
        self.voices[index].trigger_off()
    }

    /// Takes one sample of voice `index` and returns its amplitude before
    /// the transition.
    pub fn next(&self, index: usize) -> i32
        requires
            index < self@.len(),
    {
        self.voices[index].next()
    }
}

} // verus!
