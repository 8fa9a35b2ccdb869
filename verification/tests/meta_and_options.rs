use monazite_boot::bootbank::BootBank;
use monazite_boot::bootmeta::BootMeta;
use monazite_boot::option_bytes::FlashOptionBytes;
use monazite_boot::reset::ResetReason;

#[test]
fn metadata_slots_are_independent() {
    let mut meta = BootMeta::new(0, 0);
    meta.set_next_boot_bank(Some(BootBank::Bank2));
    assert_eq!(meta.next_boot_bank_slot, 2);
    assert_eq!(meta.reset_flag_slot, 0);
    meta.set_reset_flag(0xCAFE);
    assert_eq!(meta.reset_flag(), 0xCAFE);
    assert_eq!(meta.next_boot_bank(), Ok(Some(BootBank::Bank2)));
    meta.set_next_boot_bank(None);
    assert_eq!(meta.next_boot_bank(), Ok(None));
    assert_eq!(meta.reset_flag(), 0xCAFE);
}

#[test]
fn metadata_decode_error_carries_raw() {
    let meta = BootMeta::new(77, 0);
    assert_eq!(meta.next_boot_bank(), Err(77));
}

#[test]
fn metadata_classifies_reset() {
    let meta = BootMeta::new(0, 0);
    let pin = (1 << 22) | (1 << 17);
    assert_eq!(meta.check_reset_source(pin), Ok(ResetReason::PinReset));
    assert_eq!(meta.check_reset_source(0), Err(0));
}

#[test]
fn option_byte_write_persists_only_on_program() {
    let mut flop = FlashOptionBytes::new(false);
    flop.unlock();
    flop.lock();
    // A commit while locked has no effect.
    flop.program();
    assert!(!flop.persisted_swap_bank);
    // The full sequence persists the staged bit but leaves the effective
    // mapping alone until the next reset.
    flop.write_swap_bank(true);
    assert!(flop.persisted_swap_bank);
    assert!(flop.staged_swap_bank);
    assert!(!flop.effective_swap_bank);
    assert!(!flop.read_swap_bank());
    assert!(flop.locked);
}

#[test]
fn option_byte_takes_effect_after_reset() {
    let mut flop = FlashOptionBytes::new(false);
    flop.write_swap_bank(true);
    let flop = flop.after_reset();
    assert!(flop.effective_swap_bank);
    assert!(flop.read_swap_bank());
    assert!(flop.locked);
}
