//! What the control thread does with a key event.
//!
//! Two rows of keys play the voices: codes 16 to 27 play voices 0 to 11 and
//! codes 30 to 40 play voices 12 to 22. Codes 44, 45 and 46 select the sine,
//! the triangle and the square. Letting go of key 1 ends the session.

use vstd::prelude::*;
use crate::bank::VoiceBank;
use crate::keyboard::{KbdKey, KeyboardHook};
use crate::waveform::{Waveform, WaveformSelector};

verus! {

/// The number of voices the key layout plays.
pub const VOICES: usize = 23;

/// What a key event asks for.
#[derive(Clone, Copy, Debug, PartialEq, Eq, Structural)]
pub enum Action {
    /// Start the attack of a voice.
    NoteOn(usize),
    /// Start the release of a voice.
    NoteOff(usize),
    /// Change the waveform.
    Select(Waveform),
    /// End the session.
    Quit,
    /// Nothing.
    Ignore,
}

/// The voice that a key code plays, if it plays one.
pub open spec fn key_voice(code: u16) -> Option<usize> {
    if 16 <= code <= 27 {
        Some((code - 16) as usize)
    } else if 30 <= code <= 40 {
        Some((code - 30 + 12) as usize)
    } else {
        None
    }
}

/// The waveform that a key code selects, if it selects one.
pub open spec fn key_waveform(code: u16) -> Option<Waveform> {
    if code == 44 {
        Some(Waveform::Sine)
    } else if code == 45 {
        Some(Waveform::Triangle)
    } else if code == 46 {
        Some(Waveform::Square)
    } else {
        None
    }
}

/// What a key event asks for. A voice key starts the attack when it goes
/// down and the release when it comes up. A waveform key selects its
/// waveform either way. Of the other keys only key 1 does anything, when it
/// comes up.
pub open spec fn key_action(key: KbdKey) -> Action {
    match key_voice(key.code()) {
        Some(voice) => if key is Pressed {
            Action::NoteOn(voice)
        } else {
            Action::NoteOff(voice)
        },
        None => match key_waveform(key.code()) {
            Some(kind) => Action::Select(kind),
            None => if key == KbdKey::Released(1) {
                Action::Quit
            } else {
                Action::Ignore
            },
        },
    }
}

/// Every voice that a key plays is one of the `VOICES` voices, and each of
/// them has a key.
pub proof fn lemma_keys_cover_voices(key: KbdKey, voice: usize)
    ensures
        key_action(key) matches Action::NoteOn(v) ==> v < VOICES,
        key_action(key) matches Action::NoteOff(v) ==> v < VOICES,
        voice < VOICES ==> exists|code: u16| key_voice(code) == Some(voice),
{
    if voice < 12 {
        assert(key_voice((voice + 16) as u16) == Some(voice));
    } else if voice < VOICES {
        assert(key_voice((voice + 18) as u16) == Some(voice));
    }
}

/// Reads off what a key event asks for.
pub fn action_for(key: &KbdKey) -> (action: Action)
    ensures
        action == key_action(*key),
{
    let code = key.unwrap();
    if 16 <= code && code <= 27 {
        let voice = (code - 16) as usize;
        if key.is_pressed() {
            Action::NoteOn(voice)
        } else {
            Action::NoteOff(voice)
        }
    } else if 30 <= code && code <= 40 {
        let voice = (code - 30 + 12) as usize;
        if key.is_pressed() {
            Action::NoteOn(voice)
        } else {
            Action::NoteOff(voice)
        }
    } else if code == 44 {
        Action::Select(Waveform::Sine)
    } else if code == 45 {
        Action::Select(Waveform::Triangle)
    } else if code == 46 {
        Action::Select(Waveform::Square)
    } else if code == 1 && !key.is_pressed() {
        Action::Quit
    } else {
        Action::Ignore
    }
}

/// Carries out one key event on the bank and the selector, and tells
/// whether the event ends the session.
pub fn dispatch(bank: &VoiceBank, selector: &WaveformSelector, key: &KbdKey) -> (quit: bool)
    requires
        bank@.len() >= VOICES,
    ensures
        quit == (key_action(*key) is Quit),
{
    match action_for(key) {
        Action::NoteOn(voice) => {
            bank.trigger_on(voice);
            false
        },
        Action::NoteOff(voice) => {
            bank.trigger_off(voice);
            false
        },
        Action::Select(kind) => {
            selector.select(kind);
            false
        },
        Action::Quit => true,
        Action::Ignore => false,
    }
}

/// Whether a stream of bytes holds an event that ends the session.
pub open spec fn quits(bytes: Seq<u8>) -> bool
    decreases bytes.len(),
{
    if bytes.len() < 3 {
        false
    } else if key_action(KbdKey::from_record(bytes[0], bytes[1], bytes[2])) is Quit {
        true
    } else {
        quits(bytes.skip(3))
    }
}

/// The number of bytes of a stream that are acted on: every whole record
/// up to the first that ends the session, that one included.
pub open spec fn taken(bytes: Seq<u8>) -> nat
    decreases bytes.len(),
{
    if bytes.len() < 3 {
        0
    } else if key_action(KbdKey::from_record(bytes[0], bytes[1], bytes[2])) is Quit {
        3
    } else {
        3 + taken(bytes.skip(3))
    }
}

/// Carries out, in the order of their arrival, the events that wait in
/// `hook`, and stops at the first that ends the session. Tells whether
/// there was one. The bytes of what was not acted on stay in the hook.
pub fn run(bank: &VoiceBank, selector: &WaveformSelector, hook: &mut KeyboardHook) -> (quit: bool)
    requires
        bank@.len() >= VOICES,
    ensures
        quit == quits(old(hook)@),
        taken(old(hook)@) <= old(hook)@.len(),
        final(hook)@ == old(hook)@.skip(taken(old(hook)@) as int),
{
    let ghost mut done: nat = 0;
    let mut stop = false;
    loop
        invariant_except_break
            !stop,
            done <= old(hook)@.len(),
            hook@ == old(hook)@.skip(done as int),
            quits(old(hook)@) == quits(hook@),
            taken(old(hook)@) == done + taken(hook@),
        invariant
            bank@.len() >= VOICES,
        ensures
            stop == quits(old(hook)@),
            taken(old(hook)@) <= old(hook)@.len(),
            hook@ == old(hook)@.skip(taken(old(hook)@) as int),
        decreases hook@.len(),
    {
        let ghost before = hook@;
        match hook.read() {
            None => {
                break ;
            },
            Some(key) => {
                proof {
                    assert(hook@ == old(hook)@.skip((done + 3) as int));
                    assert(taken(before) == if key_action(key) is Quit {
                        3
                    } else {
                        3 + taken(before.skip(3))
                    });
                    done = done + 3;
                }
                if dispatch(bank, selector, &key) {
                    stop = true;
                    break ;
                }
            },
        }
    }
    stop
}

} // verus!
