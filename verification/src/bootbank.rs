//! The two flash banks and the persisted next-boot-bank slot.
//!
//! A single hardware bit (the swap-bank bit) decides which physical bank is
//! mapped at the boot address: `false` maps Bank 1, `true` maps Bank 2.
//! A battery-backed 32-bit slot persists which bank the next boot should
//! activate, encoded as 0 (no change), 1 (Bank 1) or 2 (Bank 2); any other
//! value is a decode error that carries the raw value.

use vstd::prelude::*;

verus! {

/// One of the two equal-size flash banks, each able to hold a full
/// firmware image.
#[derive(Clone, Copy, Debug, PartialEq, Eq, Structural)]
pub enum BootBank {
    Bank1,
    Bank2,
}

impl BootBank {
    /// The bank the swap-bank bit selects: `false` is Bank 1, `true` is Bank 2.
    pub open spec fn spec_from_swap_bank(swap_bank: bool) -> BootBank {
        if swap_bank {
            BootBank::Bank2
        } else {
            BootBank::Bank1
        }
    }

    /// Builds a [`BootBank`] from the value of the hardware swap-bank bit.
    pub fn from_swap_bank(swap_bank: bool) -> (bank: Self)
        ensures
            bank == Self::spec_from_swap_bank(swap_bank),
    {
        if swap_bank {
            BootBank::Bank2
        } else {
            BootBank::Bank1
        }
    }

    /// Converts a [`BootBank`] back to the value of the swap-bank bit.
    pub fn to_swap_bank(&self) -> (swap_bank: bool)
        ensures
            swap_bank == (*self is Bank2),
            *self == Self::spec_from_swap_bank(swap_bank),
    {
        match self {
            BootBank::Bank1 => false,
            BootBank::Bank2 => true,
        }
    }

    /// The other bank.
    pub open spec fn spec_complement(self) -> BootBank {
        match self {
            BootBank::Bank1 => BootBank::Bank2,
            BootBank::Bank2 => BootBank::Bank1,
        }
    }

    /// Returns the other bank: the one a rollback would switch to.
    pub fn complement(self) -> (other: Self)
        ensures
            other == self.spec_complement(),
    {
        match self {
            BootBank::Bank1 => BootBank::Bank2,
            BootBank::Bank2 => BootBank::Bank1,
        }
    }
}

/// Taking the complement twice gives the original bank back.
pub proof fn lemma_complement_involutive(bank: BootBank)
    ensures
        bank.spec_complement().spec_complement() == bank,
{
}

/// The 32-bit encoding of the next-boot-bank slot: 0 keeps the current
/// bank, 1 selects Bank 1, 2 selects Bank 2.
pub open spec fn spec_serialize_next_boot_bank(next_boot_bank: Option<BootBank>) -> u32 {
    match next_boot_bank {
        None => 0,
        Some(BootBank::Bank1) => 1,
        Some(BootBank::Bank2) => 2,
    }
}

/// The decoding of a raw slot value: 0, 1 and 2 decode as above, and any
/// other value is reported as an error carrying the raw value.
pub open spec fn spec_deserialize_next_boot_bank(raw: u32) -> Result<Option<BootBank>, u32> {
    if raw == 0 {
        Ok(None)
    } else if raw == 1 {
        Ok(Some(BootBank::Bank1))
    } else if raw == 2 {
        Ok(Some(BootBank::Bank2))
    } else {
        Err(raw)
    }
}

/// Encodes a pending next-boot-bank choice into the persisted 32-bit slot.
pub fn serialize_next_boot_bank(next_boot_bank: Option<BootBank>) -> (raw: u32)
    ensures
        raw == spec_serialize_next_boot_bank(next_boot_bank),
{
    match next_boot_bank {
        None => 0,
        Some(BootBank::Bank1) => 1,
        Some(BootBank::Bank2) => 2,
    }
}

/// Decodes the persisted 32-bit slot.  Never panics: a raw value above 2
/// comes back unchanged inside the error.
pub fn deserialize_next_boot_bank(raw: u32) -> (decoded: Result<Option<BootBank>, u32>)
    ensures
        decoded == spec_deserialize_next_boot_bank(raw),
        raw > 2 ==> decoded == Result::<Option<BootBank>, u32>::Err(raw),
{
    match raw {
        0 => Ok(None),
        1 => Ok(Some(BootBank::Bank1)),
        2 => Ok(Some(BootBank::Bank2)),
        _ => Err(raw),
    }
}

/// Decoding inverts encoding: every pending choice survives the round trip
/// through the persisted slot.
pub proof fn lemma_next_boot_bank_round_trip(next_boot_bank: Option<BootBank>)
    ensures
        spec_deserialize_next_boot_bank(spec_serialize_next_boot_bank(next_boot_bank))
            == Ok::<Option<BootBank>, u32>(next_boot_bank),
{
}

} // verus!
