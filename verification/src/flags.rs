//! The vocabulary of cheat switches: 26 named bits in a 32-bit mask.

use vstd::prelude::*;

verus! {

/// Mask covering all 26 named cheat bits; bits 26..=31 are never named.
pub const ALL_CHEATS: u32 = 0x3FFFFFF;

/// A set of cheat switches. Bit `i` of the mask says whether the feature
/// named by the constant with value `1 << i` is enabled. Every value built
/// through this type's methods carries named bits only (see [`CheatCodes::wf`]).
#[derive(Clone, Copy, Debug, PartialEq, Eq, Hash, Structural)]
pub struct CheatCodes {
    bits: u32,
}

impl View for CheatCodes {
    type V = u32;

    closed spec fn view(&self) -> u32 {
        self.bits
    }
}

impl CheatCodes {
    pub const INVINCIBILITY: u32 = 0x00000001;
    pub const SPIRIT_MODE: u32 = 0x00000002;
    pub const ALL_WEAPONS: u32 = 0x00000004;
    pub const UNLIMITED_AMMO: u32 = 0x00000008;
    pub const INFINITE_LIVES: u32 = 0x00000010;
    pub const ALL_KEYS: u32 = 0x00000020;
    pub const ALL_MAP: u32 = 0x00000040;
    pub const BIG_HEAD_SESH: u32 = 0x00000080;
    pub const TINY_ENEMIES: u32 = 0x00000100;
    pub const PURDY_COLORS: u32 = 0x00000200;
    pub const DISCO_MODE: u32 = 0x00000400;
    pub const WARP_LEVEL1: u32 = 0x00000800;
    pub const WARP_LEVEL2: u32 = 0x00001000;
    pub const WARP_LEVEL3: u32 = 0x00002000;
    pub const WARP_LEVEL4: u32 = 0x00004000;
    pub const WARP_LEVEL5: u32 = 0x00008000;
    pub const WARP_LEVEL6: u32 = 0x00010000;
    pub const WARP_LEVEL7: u32 = 0x00020000;
    pub const WARP_LEVEL8: u32 = 0x00040000;
    pub const WARP_LONGHUNTER: u32 = 0x00080000;
    pub const WARP_MANTIS: u32 = 0x00100000;
    pub const WARP_TREX: u32 = 0x00200000;
    pub const WARP_CAMPAIGNER: u32 = 0x00400000;
    pub const SHOW_CREDITS: u32 = 0x00800000;
    pub const FLY_MODE: u32 = 0x01000000;
    pub const SHOW_ENEMIES: u32 = 0x02000000;

    /// Well-formedness: only the 26 named bits may be set.
    pub open spec fn wf(self) -> bool {
        self@ & ALL_CHEATS == self@
    }

    /// The set with no cheat enabled.
    pub fn empty() -> (r: Self)
        ensures
            r@ == 0u32,
            r.wf(),
    {
        let r = CheatCodes { bits: 0 };
        proof {
            assert(0u32 & ALL_CHEATS == 0u32) by (bit_vector);
        }
        r
    }

    /// The set with every named cheat enabled.
    pub fn all() -> (r: Self)
        ensures
            r@ == ALL_CHEATS,
            r.wf(),
    {
        let r = CheatCodes { bits: ALL_CHEATS };
        proof {
            assert(ALL_CHEATS & ALL_CHEATS == ALL_CHEATS) by (bit_vector);
        }
        r
    }

    /// The raw 32-bit mask.
    pub fn bits(&self) -> (r: u32)
        ensures
            r == self@,
    {
        self.bits
    }

    /// Builds a set from a raw mask, silently dropping any bit that names
    /// no cheat (bits 26..=31).
    pub fn from_bits_truncate(bits: u32) -> (r: Self)
        ensures
            r@ == bits & ALL_CHEATS,
            r.wf(),
    {
        let r = CheatCodes { bits: bits & ALL_CHEATS };
        proof {
            assert((bits & ALL_CHEATS) & ALL_CHEATS == bits & ALL_CHEATS) by (bit_vector);
        }
        r
    }

    /// The union of two sets: a cheat is enabled in the result when it is
    /// enabled in either argument.
    pub fn union(self, other: Self) -> (r: Self)
        ensures
            r@ == self@ | other@,
            self.wf() && other.wf() ==> r.wf(),
    {
        let r = CheatCodes { bits: self.bits | other.bits };
        proof {
            let a = self.bits;
            let b = other.bits;
            assert(a & ALL_CHEATS == a && b & ALL_CHEATS == b ==> (a | b) & ALL_CHEATS == (a
                | b)) by (bit_vector);
        }
        r
    }
}

} // verus!
