//! The runtime boot manager: the thin capability the running application
//! uses to inspect and steer the dual-bank state.
//!
//! Each operation runs on the application's own task inside a short
//! critical section (the hardware's side); the logic here owns models of
//! the metadata slots and the option byte.  The application must clear the
//! next-boot-bank slot once it judges its own boot successful; until then
//! any reset other than power-on/brownout rolls back to the other bank.

use vstd::prelude::*;

verus! {

use crate::bootbank::{
    BootBank as MetaBootBank, spec_deserialize_next_boot_bank, spec_serialize_next_boot_bank,
};
use crate::bootmeta::BootMeta;
use crate::option_bytes::FlashOptionBytes;
use crate::reset::{ResetReason, spec_classify_reset};

/// The application-facing bank designation, kept apart from the metadata
/// type so the capability surface can evolve without touching the
/// persistence layer.
#[derive(Clone, Copy, Debug, PartialEq, Eq, Structural)]
pub enum BootBank {
    Bank1,
    Bank2,
}

/// Converts an application-facing bank to the metadata bank.
pub fn to_meta_boot_bank(boot_bank: BootBank) -> (meta: MetaBootBank)
    ensures
        meta == spec_to_meta_boot_bank(boot_bank),
{
    match boot_bank {
        BootBank::Bank1 => MetaBootBank::Bank1,
        BootBank::Bank2 => MetaBootBank::Bank2,
    }
}

pub open spec fn spec_to_meta_boot_bank(boot_bank: BootBank) -> MetaBootBank {
    match boot_bank {
        BootBank::Bank1 => MetaBootBank::Bank1,
        BootBank::Bank2 => MetaBootBank::Bank2,
    }
}

/// Converts a metadata bank to the application-facing bank.
pub fn from_meta_boot_bank(meta_boot_bank: MetaBootBank) -> (bank: BootBank)
    ensures
        bank == spec_from_meta_boot_bank(meta_boot_bank),
{
    match meta_boot_bank {
        MetaBootBank::Bank1 => BootBank::Bank1,
        MetaBootBank::Bank2 => BootBank::Bank2,
    }
}

pub open spec fn spec_from_meta_boot_bank(meta_boot_bank: MetaBootBank) -> BootBank {
    match meta_boot_bank {
        MetaBootBank::Bank1 => BootBank::Bank1,
        MetaBootBank::Bank2 => BootBank::Bank2,
    }
}

/// The numeric code a classified reset reason is reported as across the
/// capability surface.
pub open spec fn spec_from_reset_reason(reset_reason: ResetReason) -> i32 {
    match reset_reason {
        ResetReason::PowerOnReset => 0,
        ResetReason::PinReset => 1,
        ResetReason::BrownoutReset => 2,
        ResetReason::SystemReset => 3,
        ResetReason::CpuReset => 4,
        ResetReason::WindowWatchdogReset => 5,
        ResetReason::IndependentWatchdogReset => 6,
        ResetReason::GenericWatchdogReset => 7,
        ResetReason::D1ExitsDStandbyMode => 8,
        ResetReason::D2ExitsDStandbyMode => 9,
        ResetReason::D1EntersDStandbyErroneouslyOrCpuEntersCStopErroneously => 10,
    }
}

/// Encodes a classified reset reason as its numeric code.
pub fn from_reset_reason(reset_reason: ResetReason) -> (code: i32)
    ensures
        code == spec_from_reset_reason(reset_reason),
{
    match reset_reason {
        ResetReason::PowerOnReset => 0,
        ResetReason::PinReset => 1,
        ResetReason::BrownoutReset => 2,
        ResetReason::SystemReset => 3,
        ResetReason::CpuReset => 4,
        ResetReason::WindowWatchdogReset => 5,
        ResetReason::IndependentWatchdogReset => 6,
        ResetReason::GenericWatchdogReset => 7,
        ResetReason::D1ExitsDStandbyMode => 8,
        ResetReason::D2ExitsDStandbyMode => 9,
        ResetReason::D1EntersDStandbyErroneouslyOrCpuEntersCStopErroneously => 10,
    }
}

/// The runtime boot manager, owning the metadata and option-byte models.
pub struct Btmgr {
    pub bootmeta: BootMeta,
    pub flash_option_bytes: FlashOptionBytes,
}

impl Btmgr {
    /// Assembles the capability from the metadata and the option-byte
    /// controller handed over at construction time.
    pub fn new(bootmeta: BootMeta, flash_option_bytes: FlashOptionBytes) -> (btmgr: Self)
        ensures
            btmgr.bootmeta == bootmeta,
            btmgr.flash_option_bytes == flash_option_bytes,
    {
        Self { bootmeta, flash_option_bytes }
    }

    /// The bank the current boot is running from, as the option byte maps
    /// it; fixed for the whole boot.
    pub fn get_current_boot_bank(&self) -> (bank: BootBank)
        ensures
            bank == spec_from_meta_boot_bank(
                MetaBootBank::spec_from_swap_bank(self.flash_option_bytes.effective_swap_bank),
            ),
    {
        from_meta_boot_bank(
            MetaBootBank::from_swap_bank(self.flash_option_bytes.read_swap_bank()),
        )
    }

    /// The pending next-boot bank.  A slot that does not decode is
    /// collapsed to `None`, consistently with the bootloader's own
    /// treatment of an invalid slot.
    pub fn get_next_boot_bank(&self) -> (next: Option<BootBank>)
        ensures
            next == match spec_deserialize_next_boot_bank(self.bootmeta.next_boot_bank_slot) {
                Ok(Some(bank)) => Some(spec_from_meta_boot_bank(bank)),
                Ok(None) => None::<BootBank>,
                Err(_) => None::<BootBank>,
            },
    {
        match self.bootmeta.next_boot_bank() {
            Ok(Some(bank)) => Some(from_meta_boot_bank(bank)),
            Ok(None) => None,
            Err(_) => None,
        }
    }

    /// Persists the next-boot bank choice; `None` keeps the current bank
    /// and, written by a healthy application, disarms the rollback.
    pub fn set_next_boot_bank(&mut self, next_boot_bank: Option<BootBank>)
        ensures
            final(self).bootmeta.next_boot_bank_slot == spec_serialize_next_boot_bank(
                match next_boot_bank {
                    Some(bank) => Some(spec_to_meta_boot_bank(bank)),
                    None => None::<MetaBootBank>,
                },
            ),
            final(self).bootmeta.reset_flag_slot == old(self).bootmeta.reset_flag_slot,
            final(self).flash_option_bytes == old(self).flash_option_bytes,
    {
        let meta_bank = match next_boot_bank {
            Some(bank) => Some(to_meta_boot_bank(bank)),
            None => None,
        };
        self.bootmeta.set_next_boot_bank(meta_bank);
    }

    /// The raw reset-flag snapshot the bootloader persisted for this boot.
    pub fn get_reset_flag(&self) -> (raw: u32)
        ensures
            raw == self.bootmeta.reset_flag_slot,
    {
        self.bootmeta.reset_flag()
    }

    /// The classified reset reason as a numeric code; a snapshot that does
    /// not decode is reported as the sentinel code, never as a failure.
    pub fn get_reset_reason(&self) -> (code: i32)
        ensures
            code == match spec_classify_reset(self.bootmeta.reset_flag_slot) {
                Ok(reason) => spec_from_reset_reason(reason),
                Err(_) => -1i32,
            },
    {
        let raw = self.bootmeta.reset_flag();
        match self.bootmeta.check_reset_source(raw) {
            Ok(reason) => from_reset_reason(reason),
            Err(_) => -1,
        }
    }
}

} // verus!
