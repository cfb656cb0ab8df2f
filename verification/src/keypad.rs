//! The keypad interface: at most one logical key (0x0–0xF) is held at a
//! time. The host input adapter writes it; the processor only reads it.

use vstd::prelude::*;

verus! {

/// The currently held key, written by the host and read by the processor.
///
/// Its view is the held key: `Some(k)` while a key is held, `None` otherwise.
pub struct Keypad {
    current_key: u8,
    is_key_pressed: bool,
}

impl Keypad {
    #[verifier::type_invariant]
    spec fn inv(self) -> bool {
        !self.is_key_pressed ==> self.current_key == 0
    }
}

impl View for Keypad {
    type V = Option<u8>;

    closed spec fn view(&self) -> Option<u8> {
        if self.is_key_pressed {
            Some(self.current_key)
        } else {
            None
        }
    }
}

impl Keypad {
    /// A keypad with no key held.
    pub fn new() -> (kp: Keypad)
        ensures
            kp@ is None,
    {
        Keypad { current_key: 0, is_key_pressed: false }
    }

    /// The held key, or 0 when none is held.
    pub fn get_current_key(&self) -> (k: u8)
        ensures
            k == (match self@ {
                Some(key) => key,
                None => 0u8,
            }),
    {
        proof {
            use_type_invariant(self);
        }
        self.current_key
    }

    /// Whether any key is currently held.
    pub fn is_key_pressed(&self) -> (b: bool)
        ensures
            b == self@ is Some,
    {
        self.is_key_pressed
    }

    /// Records `key` as the held key.
    pub fn set_key(&mut self, key: u8)
        ensures
            final(self)@ == Some(key),
    {
        self.is_key_pressed = true;
        self.current_key = key;
    }

    /// Records that no key is held.
    pub fn unset_key(&mut self)
        ensures
            final(self)@ is None,
    {
        self.current_key = 0x0;
        self.is_key_pressed = false;
    }
}

} // verus!
