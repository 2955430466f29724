//! Canonical button bitmask for the Steam Deck controller.
//!
//! Each logical button occupies one fixed bit of a 32-bit word; 28 bits are
//! defined and the values are stable across protocol versions. The all-zero
//! value means "no buttons pressed".

use vstd::prelude::*;

verus! {

/// A set of canonical controller buttons, one bit per button.
#[derive(Debug, Clone, Copy, PartialEq, Eq, Structural)]
pub struct SteamDeckGamepadButton {
    pub bits: u32,
}

impl SteamDeckGamepadButton {
    pub const R1: u32 = 1;

    pub const R2: u32 = 1 << 1;

    pub const L1: u32 = 1 << 2;

    pub const L2: u32 = 1 << 3;

    pub const NORTH: u32 = 1 << 4;

    pub const EAST: u32 = 1 << 5;

    pub const WEST: u32 = 1 << 6;

    pub const SOUTH: u32 = 1 << 7;

    pub const DPAD_UP: u32 = 1 << 8;

    pub const DPAD_RIGHT: u32 = 1 << 9;

    pub const DPAD_LEFT: u32 = 1 << 10;

    pub const DPAD_DOWN: u32 = 1 << 11;

    pub const START: u32 = 1 << 12;

    pub const SELECT: u32 = 1 << 13;

    pub const RSTICK: u32 = 1 << 14;

    pub const LSTICK: u32 = 1 << 15;

    pub const STEAM: u32 = 1 << 16;

    pub const QAM: u32 = 1 << 17;

    pub const R4: u32 = 1 << 18;

    pub const R5: u32 = 1 << 19;

    pub const L4: u32 = 1 << 20;

    pub const L5: u32 = 1 << 21;

    pub const RSTICK_TOUCH: u32 = 1 << 22;

    pub const LSTICK_TOUCH: u32 = 1 << 23;

    pub const LPAD: u32 = 1 << 24;

    pub const RPAD: u32 = 1 << 25;

    pub const LPAD_TOUCH: u32 = 1 << 26;

    pub const RPAD_TOUCH: u32 = 1 << 27;

    /// Union of every defined button bit.
    pub const ALL_BITS: u32 = 0x0FFF_FFFF;

    /// The empty button set.
    pub fn empty() -> (r: Self)
        ensures
            r.bits == 0,
    {
        SteamDeckGamepadButton { bits: 0 }
    }

    /// The set of every defined button.
    pub fn all() -> (r: Self)
        ensures
            r.bits == Self::ALL_BITS,
    {
        SteamDeckGamepadButton { bits: Self::ALL_BITS }
    }

    /// The set holding exactly the given bits.
    pub fn from_bits(bits: u32) -> (r: Self)
        ensures
            r.bits == bits,
    {
        SteamDeckGamepadButton { bits }
    }

    /// True when no button is in the set.
    pub fn is_empty(&self) -> (b: bool)
        ensures
            b == (self.bits == 0),
    {
        self.bits == 0
    }

    /// Adds every button of `flag` to the set.
    pub fn insert(&mut self, flag: u32)
        ensures
            final(self).bits == old(self).bits | flag,
    {
        self.bits = self.bits | flag;
    }

    /// True when every button of `flag` is in the set.
    pub fn contains(&self, flag: u32) -> (b: bool)
        ensures
            b == (self.bits & flag == flag),
    {
        self.bits & flag == flag
    }

    /// Union of the two sets.
    pub fn union(self, other: Self) -> (r: Self)
        ensures
            r.bits == self.bits | other.bits,
    {
        SteamDeckGamepadButton { bits: self.bits | other.bits }
    }
}

} // verus!
