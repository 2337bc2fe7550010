//! One voice: an envelope phase in a cell shared by the render thread and
//! the control thread, beside the voice's fixed coefficients.
//!
//! The cell holds the phase as one word. Every read and every write moves a
//! whole word, and the transition of a sample is one compare-and-swap from
//! the word that was read to the word that follows, tried again if another
//! thread wrote in between. No thread waits for another.

use crossbeam::atomic::AtomicCell;
use vstd::prelude::*;
use crate::envelope::{Coefficients, State};

verus! {

/// `AtomicCell` of crossbeam: a cell that is read and written whole through
/// a shared reference. Nothing of what it holds is visible to contracts,
/// since another thread may write between any two calls.
#[verifier::external_type_specification]
#[verifier::external_body]
#[verifier::reject_recursive_types(T)]
pub struct ExAtomicCell<T>(crossbeam::atomic::AtomicCell<T>);

/// `AtomicCell::new`: a cell that starts out holding `val`.
pub assume_specification<T>[ AtomicCell::<T>::new ](val: T) -> AtomicCell<T>;

/// `AtomicCell::load`: the value the cell holds at some moment of the call.
pub assume_specification<T: Copy>[ AtomicCell::<T>::load ](cell: &AtomicCell<T>) -> T;

/// `AtomicCell::store`: puts `val` into the cell.
pub assume_specification<T>[ AtomicCell::<T>::store ](cell: &AtomicCell<T>, val: T);

/// `AtomicCell::is_lock_free`: whether this machine reads and writes a cell
/// of `T` with atomic instructions, without a lock.
pub assume_specification<T>[ AtomicCell::<T>::is_lock_free ]() -> bool;

/// `AtomicCell::fetch_update` with the envelope's transition as the update:
/// in one indivisible exchange the cell goes from the word that is handed
/// back to the word of the phase that follows. The exchange is tried again
/// whenever another thread wrote in between, so the word handed back is the
/// one that the new word was computed from.
#[verifier::external_body]
fn advance_cell(cell: &AtomicCell<u64>, c: &Coefficients) -> (prior: u64)
    requires
        c.wf(),
{
    match cell.fetch_update(|word| Some(State::step_word(word, c))) {
        Ok(word) => word,
        Err(word) => word,
    }
}

/// An envelope that two threads may drive at once. The phase is kept as
/// one word, read and written whole.
pub struct AtomicState {
    cell: AtomicCell<u64>,
    coefficients: Coefficients,
}

impl View for AtomicState {
    type V = Coefficients;

    /// What is fixed in a voice: its coefficients.
    closed spec fn view(&self) -> Coefficients {
        self.coefficients
    }
}

impl AtomicState {
    #[verifier::type_invariant]
    spec fn inv(self) -> bool {
        self.coefficients.wf()
    }

    /// A voice that starts out in `state`.
    pub fn new(
        state: State,
        attack_max: i32,
        attack_gain: i32,
        decay_fall: i32,
        sustain_level: i32,
        release_fall: i32,
    ) -> (voice: Self)
        requires
            (Coefficients { attack_max, attack_gain, decay_fall, sustain_level, release_fall }).wf(),
        ensures
            voice@ == (Coefficients {
                attack_max,
                attack_gain,
                decay_fall,
                sustain_level,
                release_fall,
            }),
    {
        AtomicState {
            cell: AtomicCell::new(state.pack()),
            coefficients: Coefficients {
                attack_max,
                attack_gain,
                decay_fall,
                sustain_level,
                release_fall,
            },
        }
    }

    /// The coefficients the voice was made with.
    pub fn coefficients(&self) -> (c: Coefficients)
        ensures
            c == self@,
            c.wf(),
    {
        proof {
            use_type_invariant(self);
        }
        self.coefficients
    }

    /// Whether voices are driven without a lock on this machine.
    pub fn is_lock_free() -> bool {
        AtomicCell::<u64>::is_lock_free()
    }

    /// Puts the voice in `state`.
    pub fn set(&self, state: State) {
        self.cell.store(state.pack())
    }

    /// The phase the voice is in at some moment of the call.
    pub fn state(&self) -> State {
        State::unpack(self.cell.load())
    }

    /// Takes one sample: moves the voice to the successor of the phase it
    /// is in and hands back the phase it was in.
    pub fn advance(&self) -> State {
        proof {
            use_type_invariant(self);
        }
        State::unpack(advance_cell(&self.cell, &self.coefficients))
    }

    /// Takes one sample and returns the amplitude before the transition.
    pub fn next(&self) -> i32 {
        let prior = self.advance();
        prior.amplitude(&self.coefficients)
    }

    /// The amplitude of the voice at some moment of the call.
    pub fn peek(&self) -> i32 {
        self.state().amplitude(&self.coefficients)
    }

    /// Starts the attack of a note from the level the voice is at.
    pub fn trigger_on(&self) {
        let now = self.state();
        self.set(now.trigger_on(&self.coefficients));
    }

    /// Starts the release of a note from the level the voice is at.
    pub fn trigger_off(&self) {
        let now = self.state();
        self.set(now.trigger_off(&self.coefficients));
    }

    /// Whether the voice is at rest at some moment of the call.
    pub fn is_silent(&self) -> bool {
        self.state().is_silent()
    }
}

impl Clone for AtomicState {
    /// A voice of its own with the same coefficients, which starts out in
    /// the phase this one is in at some moment of the call.
    fn clone(&self) -> (voice: Self)
        ensures
            voice@ == self@,
    {
        proof {
            use_type_invariant(self);
        }
        AtomicState { cell: AtomicCell::new(self.cell.load()), coefficients: self.coefficients }
    }
}

} // verus!
