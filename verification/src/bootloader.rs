//! The first-stage bootloader: a one-shot, watchdog-bounded procedure run
//! on every reset.
//!
//! After arming the watchdog and enabling backup-domain access (hardware
//! steps outside this crate), the procedure reads the active bank, snapshots
//! the reset-cause register before clearing it, and decides: either flip
//! the option bit and force a system reset, or arm the rollback safety net
//! and continue into the application.  The safety net is the complement of
//! the bank about to run; unless the application clears it once healthy,
//! the next reset of any cause except power-on/brownout rolls back.
//!
//! `run_first_stage` performs every persisted-state step of that procedure
//! on the models and returns the plan; the delay, the forced reset, the RAM
//! clear and the jump are the hardware's side and follow the plan outside
//! this crate.

use vstd::prelude::*;

verus! {

use crate::bootbank::{BootBank, spec_deserialize_next_boot_bank, spec_serialize_next_boot_bank};
use crate::bootmeta::BootMeta;
use crate::option_bytes::FlashOptionBytes;
use crate::reset::{ResetReason, classify_reset, spec_classify_reset};

/// What the first-stage bootloader decided to do with this boot.
#[derive(Clone, Copy, Debug, PartialEq, Eq, Structural)]
pub enum BootPlan {
    /// Flip the persistent option bit to the target bank and force a
    /// system reset.  Execution never continues past this plan: the RAM
    /// clear and the jump into application code are not reached.
    SwapAndReset { target: BootBank },
    /// Keep the current bank: the rollback safety net (the complement of
    /// the bank about to run) is persisted, all application RAM is zeroed,
    /// and control transfers to the application's fixed load address.
    ContinueToApplication { safety_net: BootBank },
}

/// The bank the persisted metadata asks the next boot to activate.
///
/// After a power-on or brownout reset the battery-backed slots are
/// undefined, so their content is ignored and the current bank is kept.
/// On every other cause the slot decides; a slot that does not decode is
/// treated as "no change".
pub open spec fn spec_desired_boot_bank(reset_flag: u32, next_boot_bank_slot: u32) -> Option<
    BootBank,
> {
    let cause = spec_classify_reset(reset_flag);
    if cause == Ok::<ResetReason, u32>(ResetReason::PowerOnReset) || cause == Ok::<
        ResetReason,
        u32,
    >(ResetReason::BrownoutReset) {
        None
    } else {
        match spec_deserialize_next_boot_bank(next_boot_bank_slot) {
            Ok(next) => next,
            Err(_) => None,
        }
    }
}

/// The decision of the first-stage bootloader, as a function of the active
/// bank and the two values read at entry: swap when a valid, trusted slot
/// names a bank other than the current one, otherwise continue with the
/// rollback safety net armed.
pub open spec fn spec_plan_boot(
    current: BootBank,
    reset_flag: u32,
    next_boot_bank_slot: u32,
) -> BootPlan {
    match spec_desired_boot_bank(reset_flag, next_boot_bank_slot) {
        Some(desired) => if desired != current {
            BootPlan::SwapAndReset { target: desired }
        } else {
            BootPlan::ContinueToApplication { safety_net: current.spec_complement() }
        },
        None => BootPlan::ContinueToApplication { safety_net: current.spec_complement() },
    }
}

/// Computes the bank the persisted metadata asks for, ignoring the slots
/// after a power-on or brownout reset and collapsing decode errors to
/// "no change".
pub fn desired_boot_bank(reset_flag: u32, next_boot_bank_slot: u32) -> (desired: Option<BootBank>)
    ensures
        desired == spec_desired_boot_bank(reset_flag, next_boot_bank_slot),
{
    let trust_slot = match classify_reset(reset_flag) {
        Ok(ResetReason::PowerOnReset) => false,
        Ok(ResetReason::BrownoutReset) => false,
        _ => true,
    };
    if !trust_slot {
        None
    } else {
        match crate::bootbank::deserialize_next_boot_bank(next_boot_bank_slot) {
            Ok(next) => next,
            Err(_) => None,
        }
    }
}

/// The rollback safety net works: after a continue boot from `current`,
/// the slot holds the complement of `current`.  If the application never
/// clears it, the next boot, whatever its cause except power-on and
/// brownout, swaps away from the unconfirmed bank.
pub proof fn lemma_unconfirmed_boot_rolls_back(current: BootBank, next_reset_flag: u32)
    requires
        spec_classify_reset(next_reset_flag) != Ok::<ResetReason, u32>(ResetReason::PowerOnReset),
        spec_classify_reset(next_reset_flag) != Ok::<ResetReason, u32>(ResetReason::BrownoutReset),
    ensures
        spec_plan_boot(
            current,
            next_reset_flag,
            spec_serialize_next_boot_bank(Some(current.spec_complement())),
        ) == (BootPlan::SwapAndReset { target: current.spec_complement() }),
{
}

/// A confirmed boot keeps its bank: once the application clears the
/// next-boot-bank slot, every later boot continues on the current bank,
/// whatever its reset cause.
pub proof fn lemma_confirmed_boot_keeps_bank(current: BootBank, next_reset_flag: u32)
    ensures
        spec_plan_boot(current, next_reset_flag, 0) == (BootPlan::ContinueToApplication {
            safety_net: current.spec_complement(),
        }),
{
}

/// Runs the persisted-state steps of the first-stage bootloader on the
/// metadata and option-byte models, given the raw reset-cause register as
/// read at entry, and returns the plan the hardware must carry out.
///
/// In order: the raw cause is snapshotted into the reset-flag slot before
/// the hardware register is cleared; the desired bank is computed; then
/// either the option bit is flipped to the target (a swap boot: the
/// next-boot-bank slot is left alone, and the caller must force a system
/// reset without ever reaching the RAM clear or the jump), or the rollback
/// safety net is written into the slot (a continue boot: the option bit is
/// untouched, and the caller zeroes all application RAM and jumps).
pub fn run_first_stage(
    meta: &mut BootMeta,
    flop: &mut FlashOptionBytes,
    rcc_rsr: u32,
) -> (plan: BootPlan)
    ensures
        plan == spec_plan_boot(
            BootBank::spec_from_swap_bank(old(flop).effective_swap_bank),
            rcc_rsr,
            old(meta).next_boot_bank_slot,
        ),
        final(meta).reset_flag_slot == rcc_rsr,
        plan matches BootPlan::SwapAndReset { target } ==> {
            &&& final(flop).persisted_swap_bank == (target is Bank2)
            &&& final(flop).locked
            &&& final(meta).next_boot_bank_slot == old(meta).next_boot_bank_slot
        },
        plan matches BootPlan::ContinueToApplication { safety_net } ==> {
            &&& safety_net == BootBank::spec_from_swap_bank(
                old(flop).effective_swap_bank,
            ).spec_complement()
            &&& final(meta).next_boot_bank_slot == spec_serialize_next_boot_bank(Some(safety_net))
            &&& final(flop).persisted_swap_bank == old(flop).persisted_swap_bank
        },
        final(flop).effective_swap_bank == old(flop).effective_swap_bank,
{
    // The active bank is fixed for this boot regardless of pending writes.
    let current_boot_bank = BootBank::from_swap_bank(flop.read_swap_bank());

    // Snapshot the one-shot reset flags before the hardware clears them.
    meta.set_reset_flag(rcc_rsr);

    let desired = desired_boot_bank(rcc_rsr, meta.next_boot_bank_slot);

    // The caller clears the hardware reset-cause register here.

    if let Some(desired_boot_bank) = desired {
        if desired_boot_bank != current_boot_bank {
            // A different bank is asked for: flip the option bit; the
            // caller feeds the watchdog, waits out the flash-wear delay
            // and forces the system reset.  Execution never continues.
            flop.write_swap_bank(desired_boot_bank.to_swap_bank());
            return BootPlan::SwapAndReset { target: desired_boot_bank };
        }
    }

    // Arm the rollback safety net: if this boot never confirms itself,
    // the next reset swaps to the other bank.
    let rolled_back_boot_bank = current_boot_bank.complement();
    meta.set_next_boot_bank(Some(rolled_back_boot_bank));
    BootPlan::ContinueToApplication { safety_net: rolled_back_boot_bank }
}

} // verus!
