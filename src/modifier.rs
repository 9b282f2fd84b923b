//! Latched (sticky) modifier state and the keycode-to-modifier table.
use vstd::prelude::*;

verus! {

/// Evdev keycodes of the modifier keys.
pub const CAPS_LOCK: u32 = 58;
pub const SHIFT_LEFT: u32 = 42;
pub const SHIFT_RIGHT: u32 = 54;
pub const CTRL_LEFT: u32 = 29;
pub const CTRL_RIGHT: u32 = 97;
pub const ALT_LEFT: u32 = 56;
pub const ALT_RIGHT: u32 = 100;
/// The logo key, which latches Super.
pub const MENU: u32 = 125;

/// One modifier, or none.
#[derive(Clone, Copy, Debug, PartialEq, Eq, Structural)]
pub enum ModifierType {
    NoMod,
    Shift,
    CapsLock,
    Ctrl,
    Alt,
    Super,
    AltGr,
}

impl ModifierType {
    /// The bit that this modifier occupies in the mask sent to the compositor.
    pub open spec fn spec_bits(self) -> u32 {
        match self {
            ModifierType::NoMod => 0,
            ModifierType::Shift => 1,
            ModifierType::CapsLock => 2,
            ModifierType::Ctrl => 4,
            ModifierType::Alt => 8,
            ModifierType::Super => 64,
            ModifierType::AltGr => 128,
        }
    }

    pub fn bits(self) -> (r: u32)
        ensures
            r == self.spec_bits(),
    {
        match self {
            ModifierType::NoMod => 0,
            ModifierType::Shift => 1,
            ModifierType::CapsLock => 2,
            ModifierType::Ctrl => 4,
            ModifierType::Alt => 8,
            ModifierType::Super => 64,
            ModifierType::AltGr => 128,
        }
    }

    /// Which modifier a keycode stands for; every other keycode is no modifier.
    pub open spec fn spec_from_keycode(key: u32) -> ModifierType {
        if key == CAPS_LOCK {
            ModifierType::CapsLock
        } else if key == SHIFT_LEFT || key == SHIFT_RIGHT {
            ModifierType::Shift
        } else if key == MENU {
            ModifierType::Super
        } else if key == CTRL_LEFT || key == CTRL_RIGHT {
            ModifierType::Ctrl
        } else if key == ALT_LEFT || key == ALT_RIGHT {
            ModifierType::Alt
        } else {
            ModifierType::NoMod
        }
    }

    pub fn from_keycode(key: u32) -> (r: ModifierType)
        ensures
            r == Self::spec_from_keycode(key),
    {
        if key == CAPS_LOCK {
            ModifierType::CapsLock
        } else if key == SHIFT_LEFT || key == SHIFT_RIGHT {
            ModifierType::Shift
        } else if key == MENU {
            ModifierType::Super
        } else if key == CTRL_LEFT || key == CTRL_RIGHT {
            ModifierType::Ctrl
        } else if key == ALT_LEFT || key == ALT_RIGHT {
            ModifierType::Alt
        } else {
            ModifierType::NoMod
        }
    }
}

impl From<u32> for ModifierType {
    fn from(key: u32) -> (r: ModifierType)
        ensures
            r == ModifierType::spec_from_keycode(key),
    {
        ModifierType::from_keycode(key)
    }
}

impl vstd::std_specs::convert::FromSpecImpl<u32> for ModifierType {
    open spec fn obeys_from_spec() -> bool {
        true
    }

    open spec fn from_spec(key: u32) -> ModifierType {
        ModifierType::spec_from_keycode(key)
    }
}

/// The modifier bit that releasing `key` toggles (zero for a plain key).
pub open spec fn key_bit(key: u32) -> u32 {
    ModifierType::spec_from_keycode(key).spec_bits()
}

/// A bitmask of latched modifiers.
#[derive(Clone, Copy, Debug, PartialEq, Eq, Structural)]
pub struct ModifierState {
    pub bits: u32,
}

impl ModifierState {
    pub fn new() -> (r: ModifierState)
        ensures
            r.bits == 0,
    {
        ModifierState { bits: 0 }
    }

    pub fn bits(&self) -> (r: u32)
        ensures
            r == self.bits,
    {
        self.bits
    }

    pub open spec fn spec_contains(self, m: ModifierType) -> bool {
        m.spec_bits() != 0 && self.bits & m.spec_bits() == m.spec_bits()
    }

    /// Whether the bit of `m` is latched (never for `NoMod`).
    pub fn contains(&self, m: ModifierType) -> (r: bool)
        ensures
            r == self.spec_contains(m),
    {
        let b = m.bits();
        b != 0 && self.bits & b == b
    }

    /// Flips the bit of `m`.
    pub fn toggle(&mut self, m: ModifierType)
        ensures
            final(self).bits == old(self).bits ^ m.spec_bits(),
    {
        self.bits = self.bits ^ m.bits();
    }

    /// The state after releasing `key`: the key's modifier bit is flipped.
    pub open spec fn after_release(self, key: u32) -> ModifierState {
        ModifierState { bits: self.bits ^ key_bit(key) }
    }

    /// Handles the release of `key`; returns whether the mask changed.
    pub fn release(&mut self, key: u32) -> (changed: bool)
        ensures
            *final(self) == old(self).after_release(key),
            changed == (key_bit(key) != 0),
            changed == (final(self).bits != old(self).bits),
    {
        let before = self.bits;
        let m = ModifierType::from_keycode(key);
        self.toggle(m);
        let ghost kb = key_bit(key);
        proof {
            lemma_xor_changes(before, kb);
        }
        self.bits != before
    }
}

/// Flipping bits changes a mask exactly when some bit is flipped.
pub proof fn lemma_xor_changes(a: u32, b: u32)
    ensures
        (a ^ b != a) == (b != 0),
{
    assert((a ^ b != a) == (b != 0)) by (bit_vector);
}

/// Releasing the same key twice in a row restores the mask it started from,
/// and for a modifier key both releases report a change.
pub proof fn lemma_release_twice(s: ModifierState, key: u32)
    ensures
        s.after_release(key).after_release(key) == s,
        (s.after_release(key).bits != s.bits) == (key_bit(key) != 0),
        (s.after_release(key).after_release(key).bits != s.after_release(key).bits) == (
        key_bit(key) != 0),
{
    let a = s.bits;
    let b = key_bit(key);
    assert((a ^ b) ^ b == a) by (bit_vector);
    lemma_xor_changes(a, b);
    lemma_xor_changes(a ^ b, b);
}

} // verus!
