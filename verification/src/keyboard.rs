//! Key events and the byte stream they arrive in.
//!
//! An event travels as a record of three bytes: a flag, which is 1 for a
//! press and anything else for a release, and the key code, low byte first.

use std::collections::VecDeque;
use vstd::prelude::*;

verus! {

/// A key going down or coming up, with its code.
#[derive(Clone, Copy, Debug, PartialEq, Eq, Structural)]
pub enum KbdKey {
    Pressed(u16),
    Released(u16),
}

impl KbdKey {
    /// The code of the key, whichever way it moved.
    pub open spec fn code(self) -> u16 {
        match self {
            KbdKey::Pressed(code) => code,
            KbdKey::Released(code) => code,
        }
    }

    /// The event that a record of three bytes stands for.
    pub open spec fn from_record(flag: u8, low: u8, high: u8) -> KbdKey {
        let code = (low + 256 * high) as u16;
        if flag == 1 {
            KbdKey::Pressed(code)
        } else {
            KbdKey::Released(code)
        }
    }

    /// The code of the key, whichever way it moved.
    pub fn unwrap(&self) -> (code: u16)
        ensures
            code == self.code(),
    {
        match self {
            KbdKey::Pressed(key) => *key,
            KbdKey::Released(key) => *key,
        }
    }

    pub fn is_pressed(&self) -> (b: bool)
        ensures
            b == (*self is Pressed),
    {
        match self {
            KbdKey::Pressed(_) => true,
            KbdKey::Released(_) => false,
        }
    }

    /// Reads one record.
    pub fn decode(flag: u8, low: u8, high: u8) -> (key: KbdKey)
        ensures
            key == Self::from_record(flag, low, high),
    {
        let code: u16 = low as u16 + 256 * (high as u16);
        if flag == 1 {
            KbdKey::Pressed(code)
        } else {
            KbdKey::Released(code)
        }
    }
}

/// The receiving end of the keyboard's byte stream: bytes go in as they
/// arrive, in pieces of any length, and whole events come out in order.
pub struct KeyboardHook {
    pending: VecDeque<u8>,
}

impl View for KeyboardHook {
    type V = Seq<u8>;

    /// The bytes that have arrived and belong to no event handed out yet.
    closed spec fn view(&self) -> Seq<u8> {
        self.pending@
    }
}

impl KeyboardHook {
    /// A hook that has received nothing.
    pub fn new() -> (hook: Self)
        ensures
            hook@ == Seq::<u8>::empty(),
    {
        KeyboardHook { pending: VecDeque::new() }
    }

    /// Takes in the bytes that arrived.
    pub fn feed(&mut self, bytes: &[u8])
        ensures
            final(self)@ == old(self)@ + bytes@,
    {
        let mut i: usize = 0;
        while i < bytes.len()
            invariant
                i <= bytes@.len(),
                self@ == old(self)@ + bytes@.subrange(0, i as int),
            decreases bytes@.len() - i,
        {
            self.pending.push_back(bytes[i]);
            i += 1;
            assert(bytes@.subrange(0, i as int) == bytes@.subrange(0, i - 1).push(
                bytes@[i - 1],
            ));
        }
        assert(bytes@.subrange(0, i as int) == bytes@);
    }

    /// The number of bytes waiting.
    pub fn buffered(&self) -> (n: usize)
        ensures
            n == self@.len(),
    {
        self.pending.len()
    }

    /// Hands out the next event once its three bytes are there, and takes
    /// them off the stream; until then nothing is handed out or taken.
    pub fn read(&mut self) -> (key: Option<KbdKey>)
        ensures
            old(self)@.len() >= 3 ==> key == Some(
                KbdKey::from_record(old(self)@[0], old(self)@[1], old(self)@[2]),
            ) && final(self)@ == old(self)@.skip(3),
            old(self)@.len() < 3 ==> key.is_none() && final(self)@ == old(self)@,
    {
        if self.pending.len() < 3 {
            return None;
        }
        let flag = self.pending.pop_front();
        let low = self.pending.pop_front();
        let high = self.pending.pop_front();
        match (flag, low, high) {
            (Some(flag), Some(low), Some(high)) => {
                assert(self@ == old(self)@.skip(3));
                Some(KbdKey::decode(flag, low, high))
            },
            _ => None,
        }
    }
}

} // verus!
