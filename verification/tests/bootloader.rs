use monazite_boot::bootbank::BootBank;
use monazite_boot::bootloader::{desired_boot_bank, run_first_stage, BootPlan};
use monazite_boot::bootmeta::BootMeta;
use monazite_boot::option_bytes::FlashOptionBytes;

const SYSTEM_RESET: u32 = (1 << 24) | (1 << 22) | (1 << 17);
const POWER_ON_RESET: u32 =
    (1 << 23) | (1 << 22) | (1 << 21) | (1 << 20) | (1 << 19) | (1 << 17);
const BROWNOUT_RESET: u32 = (1 << 22) | (1 << 21) | (1 << 17);
const PIN_RESET: u32 = (1 << 22) | (1 << 17);

#[test]
fn swap_boot_flips_option_bit_and_resets() {
    // Current bank 1, persisted next bank 2, cause a system reset: the
    // bootloader flips the option bit and issues a system reset; the RAM
    // clear and the jump are never reached in that run.
    let mut meta = BootMeta::new(2, 0);
    let mut flop = FlashOptionBytes::new(false);
    let plan = run_first_stage(&mut meta, &mut flop, SYSTEM_RESET);
    assert_eq!(plan, BootPlan::SwapAndReset { target: BootBank::Bank2 });
    assert!(flop.persisted_swap_bank);
    assert!(flop.locked);
    // The effective mapping never changes before the forced reset.
    assert!(!flop.effective_swap_bank);
    // The snapshot was taken, and the slot was left alone on the swap path.
    assert_eq!(meta.reset_flag_slot, SYSTEM_RESET);
    assert_eq!(meta.next_boot_bank_slot, 2);
}

#[test]
fn continue_boot_arms_rollback_safety_net() {
    // Current bank 1, no pending change: the option bit is untouched and
    // the slot is rewritten to bank 2, the rollback safety net, before
    // RAM is zeroed and control transfers to the application.
    let mut meta = BootMeta::new(0, 0);
    let mut flop = FlashOptionBytes::new(false);
    let plan = run_first_stage(&mut meta, &mut flop, SYSTEM_RESET);
    assert_eq!(plan, BootPlan::ContinueToApplication { safety_net: BootBank::Bank2 });
    assert!(!flop.persisted_swap_bank);
    assert!(!flop.effective_swap_bank);
    assert_eq!(meta.next_boot_bank_slot, 2);
    assert_eq!(meta.reset_flag_slot, SYSTEM_RESET);
}

#[test]
fn power_on_reset_ignores_persisted_slot() {
    // After a power-on reset the battery-backed slots are undefined: even
    // a slot naming the other bank is ignored and the boot continues.
    let mut meta = BootMeta::new(2, 0);
    let mut flop = FlashOptionBytes::new(false);
    let plan = run_first_stage(&mut meta, &mut flop, POWER_ON_RESET);
    assert_eq!(plan, BootPlan::ContinueToApplication { safety_net: BootBank::Bank2 });
    assert!(!flop.persisted_swap_bank);
    assert_eq!(meta.next_boot_bank_slot, 2);
}

#[test]
fn brownout_reset_ignores_persisted_slot() {
    let mut meta = BootMeta::new(2, 0);
    let mut flop = FlashOptionBytes::new(false);
    let plan = run_first_stage(&mut meta, &mut flop, BROWNOUT_RESET);
    assert_eq!(plan, BootPlan::ContinueToApplication { safety_net: BootBank::Bank2 });
    assert!(!flop.persisted_swap_bank);
}

#[test]
fn undecodable_slot_means_no_change() {
    // A slot that does not decode is treated as "no change", never a
    // panic: the boot continues on the current bank.
    let mut meta = BootMeta::new(0xBAAD_F00D, 0);
    let mut flop = FlashOptionBytes::new(true);
    let plan = run_first_stage(&mut meta, &mut flop, PIN_RESET);
    assert_eq!(plan, BootPlan::ContinueToApplication { safety_net: BootBank::Bank1 });
    assert!(flop.persisted_swap_bank);
    assert_eq!(meta.next_boot_bank_slot, 1);
}

#[test]
fn swap_to_bank1_from_bank2() {
    let mut meta = BootMeta::new(1, 0);
    let mut flop = FlashOptionBytes::new(true);
    let plan = run_first_stage(&mut meta, &mut flop, PIN_RESET);
    assert_eq!(plan, BootPlan::SwapAndReset { target: BootBank::Bank1 });
    assert!(!flop.persisted_swap_bank);
    assert!(flop.effective_swap_bank);
}

#[test]
fn slot_naming_current_bank_continues() {
    // The slot names the bank already running: nothing to swap, the
    // safety net is armed as usual.
    let mut meta = BootMeta::new(1, 0);
    let mut flop = FlashOptionBytes::new(false);
    let plan = run_first_stage(&mut meta, &mut flop, SYSTEM_RESET);
    assert_eq!(plan, BootPlan::ContinueToApplication { safety_net: BootBank::Bank2 });
    assert_eq!(meta.next_boot_bank_slot, 2);
}

#[test]
fn desired_bank_policy() {
    assert_eq!(desired_boot_bank(SYSTEM_RESET, 2), Some(BootBank::Bank2));
    assert_eq!(desired_boot_bank(SYSTEM_RESET, 1), Some(BootBank::Bank1));
    assert_eq!(desired_boot_bank(SYSTEM_RESET, 0), None);
    assert_eq!(desired_boot_bank(SYSTEM_RESET, 99), None);
    assert_eq!(desired_boot_bank(POWER_ON_RESET, 2), None);
    assert_eq!(desired_boot_bank(BROWNOUT_RESET, 2), None);
    // An unclassifiable cause still trusts the slot.
    assert_eq!(desired_boot_bank(0, 2), Some(BootBank::Bank2));
}
