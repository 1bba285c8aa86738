//! The ability flags of a player, held as the byte that the protocol carries.
//!
//! The flags themselves belong to Valence: this module keeps the byte and
//! lets `PlayerAbilitiesFlags` change it.

use vstd::prelude::*;
use valence::abilities::PlayerAbilitiesFlags;

verus! {

/// Mask of the flag "is flying": bit 1 of the flags byte.
pub const FLYING: u8 = 0x02;

/// Mask of the flag "may fly": bit 2 of the flags byte.
pub const ALLOW_FLYING: u8 = 0x04;

/// The ability flags of one player.
#[derive(Clone, Copy, PartialEq, Eq, Debug, Structural)]
pub struct Abilities {
    pub bits: u8,
}

/// The byte `bits` with the flag under `mask` cleared and then set to `on`.
pub open spec fn with_flag(bits: u8, mask: u8, on: bool) -> u8 {
    (bits & !mask) | (if on { mask } else { 0 })
}

/// `PlayerAbilitiesFlags::set_flying` of Valence, on a raw flags byte. The
/// byte goes in through `PlayerAbilitiesFlags::from` and comes back through
/// `u8::from`, which both keep all eight bits. Trusted: the flag sits at
/// bit 1, the call writes `on` there and leaves the other seven bits as they
/// were.
#[verifier::external_body]
fn flags_set_flying(bits: u8, on: bool) -> (out: u8)
    ensures
        out == with_flag(bits, FLYING, on),
{
    let mut flags = PlayerAbilitiesFlags::from(bits);
    flags.set_flying(on);
    u8::from(flags)
}

/// `PlayerAbilitiesFlags::set_allow_flying` of Valence, on a raw flags byte.
/// The byte goes in through `PlayerAbilitiesFlags::from` and comes back
/// through `u8::from`, which both keep all eight bits. Trusted: the flag sits
/// at bit 2, the call writes `on` there and leaves the other seven bits as
/// they were.
#[verifier::external_body]
fn flags_set_allow_flying(bits: u8, on: bool) -> (out: u8)
    ensures
        out == with_flag(bits, ALLOW_FLYING, on),
{
    let mut flags = PlayerAbilitiesFlags::from(bits);
    flags.set_allow_flying(on);
    u8::from(flags)
}

impl Abilities {
    /// Whether the player is flying.
    pub open spec fn flying(self) -> bool {
        self.bits & FLYING != 0
    }

    /// Whether the player may fly.
    pub open spec fn allow_flying(self) -> bool {
        self.bits & ALLOW_FLYING != 0
    }

    /// The flags other than "is flying" and "may fly".
    pub open spec fn others(self) -> u8 {
        self.bits & !(FLYING | ALLOW_FLYING)
    }

    /// These flags with "is flying" set to `on`.
    pub open spec fn with_flying(self, on: bool) -> Abilities {
        Abilities { bits: with_flag(self.bits, FLYING, on) }
    }

    /// These flags with "may fly" set to `on`.
    pub open spec fn with_allow_flying(self, on: bool) -> Abilities {
        Abilities { bits: with_flag(self.bits, ALLOW_FLYING, on) }
    }

    /// No flag set.
    pub fn new() -> (flags: Abilities)
        ensures
            flags.bits == 0,
            !flags.flying(),
            !flags.allow_flying(),
    {
        assert(0u8 & 0x02 == 0 && 0u8 & 0x04 == 0) by (bit_vector);
        Abilities { bits: 0 }
    }

    /// Sets "is flying" and nothing else.
    pub fn set_flying(&mut self, on: bool)
        ensures
            *final(self) == old(self).with_flying(on),
            final(self).flying() == on,
            final(self).allow_flying() == old(self).allow_flying(),
            final(self).others() == old(self).others(),
    {
        proof {
            lemma_with_flying(*self, on);
        }
        self.bits = flags_set_flying(self.bits, on);
    }

    /// Sets "may fly" and nothing else.
    pub fn set_allow_flying(&mut self, on: bool)
        ensures
            *final(self) == old(self).with_allow_flying(on),
            final(self).allow_flying() == on,
            final(self).flying() == old(self).flying(),
            final(self).others() == old(self).others(),
    {
        proof {
            lemma_with_allow_flying(*self, on);
        }
        self.bits = flags_set_allow_flying(self.bits, on);
    }
}

/// Setting "is flying" changes that flag to `on` and no other bit.
pub proof fn lemma_with_flying(flags: Abilities, on: bool)
    ensures
        flags.with_flying(on).flying() == on,
        flags.with_flying(on).allow_flying() == flags.allow_flying(),
        flags.with_flying(on).others() == flags.others(),
        flags.flying() == on ==> flags.with_flying(on) == flags,
{
    let b = flags.bits;
    assert(((b & !0x02u8) | 0x02u8) & 0x02u8 != 0) by (bit_vector);
    assert(((b & !0x02u8) | 0u8) & 0x02u8 == 0) by (bit_vector);
    assert(((b & !0x02u8) | 0x02u8) & 0x04u8 == b & 0x04u8) by (bit_vector);
    assert(((b & !0x02u8) | 0u8) & 0x04u8 == b & 0x04u8) by (bit_vector);
    assert(((b & !0x02u8) | 0x02u8) & !(0x02u8 | 0x04u8) == b & !(0x02u8 | 0x04u8))
        by (bit_vector);
    assert(((b & !0x02u8) | 0u8) & !(0x02u8 | 0x04u8) == b & !(0x02u8 | 0x04u8))
        by (bit_vector);
    assert(b & 0x02u8 != 0 ==> (b & !0x02u8) | 0x02u8 == b) by (bit_vector);
    assert(b & 0x02u8 == 0 ==> (b & !0x02u8) | 0u8 == b) by (bit_vector);
}

/// Setting "may fly" changes that flag to `on` and no other bit.
pub proof fn lemma_with_allow_flying(flags: Abilities, on: bool)
    ensures
        flags.with_allow_flying(on).allow_flying() == on,
        flags.with_allow_flying(on).flying() == flags.flying(),
        flags.with_allow_flying(on).others() == flags.others(),
        flags.allow_flying() == on ==> flags.with_allow_flying(on) == flags,
{
    let b = flags.bits;
    assert(((b & !0x04u8) | 0x04u8) & 0x04u8 != 0) by (bit_vector);
    assert(((b & !0x04u8) | 0u8) & 0x04u8 == 0) by (bit_vector);
    assert(((b & !0x04u8) | 0x04u8) & 0x02u8 == b & 0x02u8) by (bit_vector);
    assert(((b & !0x04u8) | 0u8) & 0x02u8 == b & 0x02u8) by (bit_vector);
    assert(((b & !0x04u8) | 0x04u8) & !(0x02u8 | 0x04u8) == b & !(0x02u8 | 0x04u8))
        by (bit_vector);
    assert(((b & !0x04u8) | 0u8) & !(0x02u8 | 0x04u8) == b & !(0x02u8 | 0x04u8))
        by (bit_vector);
    assert(b & 0x04u8 != 0 ==> (b & !0x04u8) | 0x04u8 == b) by (bit_vector);
    assert(b & 0x04u8 == 0 ==> (b & !0x04u8) | 0u8 == b) by (bit_vector);
}

} // verus!
