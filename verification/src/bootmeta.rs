//! The persistent boot metadata: two battery-backed 32-bit slots.
//!
//! Slot 0 persists the next-boot-bank choice, slot 1 a raw snapshot of the
//! reset-cause register.  The backup-domain write-enable handshake and the
//! register bus itself are the hardware's side; this model owns the two
//! slot values and gives every access an exact contract.  Both slots are
//! undefined after a power-on or brownout reset, so consumers must
//! special-case those causes before trusting the next-boot-bank slot.

use vstd::prelude::*;

verus! {

use crate::bootbank::{
    BootBank, deserialize_next_boot_bank, serialize_next_boot_bank,
    spec_deserialize_next_boot_bank, spec_serialize_next_boot_bank,
};
use crate::reset::{ResetReason, classify_reset, spec_classify_reset};

/// The two battery-backed slots, as plain values.
pub struct BootMeta {
    /// Slot 0: the persisted next-boot-bank encoding.
    pub next_boot_bank_slot: u32,
    /// Slot 1: the persisted raw reset-cause snapshot.
    pub reset_flag_slot: u32,
}

impl BootMeta {
    /// Attaches to the backup domain with whatever the two slots hold.
    pub fn new(next_boot_bank_slot: u32, reset_flag_slot: u32) -> (meta: Self)
        ensures
            meta.next_boot_bank_slot == next_boot_bank_slot,
            meta.reset_flag_slot == reset_flag_slot,
    {
        Self { next_boot_bank_slot, reset_flag_slot }
    }

    /// Reads and decodes the next-boot-bank slot.  `Ok(None)` means the
    /// current bank is kept at the next boot; a raw value above 2 comes
    /// back unchanged inside the error.
    pub fn next_boot_bank(&self) -> (decoded: Result<Option<BootBank>, u32>)
        ensures
            decoded == spec_deserialize_next_boot_bank(self.next_boot_bank_slot),
    {
        deserialize_next_boot_bank(self.next_boot_bank_slot)
    }

    /// Encodes and persists the next-boot-bank choice.  Infallible; the
    /// reset-flag slot is untouched.
    pub fn set_next_boot_bank(&mut self, next_boot_bank: Option<BootBank>)
        ensures
            final(self).next_boot_bank_slot == spec_serialize_next_boot_bank(next_boot_bank),
            final(self).reset_flag_slot == old(self).reset_flag_slot,
    {
        self.next_boot_bank_slot = serialize_next_boot_bank(next_boot_bank);
    }

    /// Reads the persisted reset-flag snapshot, raw and undecoded.
    pub fn reset_flag(&self) -> (raw: u32)
        ensures
            raw == self.reset_flag_slot,
    {
        self.reset_flag_slot
    }

    /// Persists a raw reset-flag snapshot.  The next-boot-bank slot is
    /// untouched.
    pub fn set_reset_flag(&mut self, value: u32)
        ensures
            final(self).reset_flag_slot == value,
            final(self).next_boot_bank_slot == old(self).next_boot_bank_slot,
    {
        self.reset_flag_slot = value;
    }

    /// Classifies a raw reset-flag value.  Stateless decode; an unmatched
    /// flag combination comes back unchanged inside the error.
    pub fn check_reset_source(&self, reset_flag_val: u32) -> (reason: Result<ResetReason, u32>)
        ensures
            reason == spec_classify_reset(reset_flag_val),
    {
        classify_reset(reset_flag_val)
    }
}

} // verus!
