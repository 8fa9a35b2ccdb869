use monazite_boot::bootbank::BootBank as MetaBootBank;
use monazite_boot::bootmeta::BootMeta;
use monazite_boot::btmgr::{
    from_meta_boot_bank, from_reset_reason, to_meta_boot_bank, BootBank, Btmgr,
};
use monazite_boot::option_bytes::FlashOptionBytes;
use monazite_boot::reset::ResetReason;

#[test]
fn bank_conversions_round_trip() {
    assert_eq!(to_meta_boot_bank(BootBank::Bank1), MetaBootBank::Bank1);
    assert_eq!(to_meta_boot_bank(BootBank::Bank2), MetaBootBank::Bank2);
    assert_eq!(from_meta_boot_bank(MetaBootBank::Bank1), BootBank::Bank1);
    assert_eq!(from_meta_boot_bank(MetaBootBank::Bank2), BootBank::Bank2);
}

#[test]
fn reset_reason_codes() {
    assert_eq!(from_reset_reason(ResetReason::PowerOnReset), 0);
    assert_eq!(from_reset_reason(ResetReason::PinReset), 1);
    assert_eq!(from_reset_reason(ResetReason::BrownoutReset), 2);
    assert_eq!(from_reset_reason(ResetReason::SystemReset), 3);
    assert_eq!(from_reset_reason(ResetReason::CpuReset), 4);
    assert_eq!(from_reset_reason(ResetReason::WindowWatchdogReset), 5);
    assert_eq!(from_reset_reason(ResetReason::IndependentWatchdogReset), 6);
    assert_eq!(from_reset_reason(ResetReason::GenericWatchdogReset), 7);
    assert_eq!(from_reset_reason(ResetReason::D1ExitsDStandbyMode), 8);
    assert_eq!(from_reset_reason(ResetReason::D2ExitsDStandbyMode), 9);
    assert_eq!(
        from_reset_reason(
            ResetReason::D1EntersDStandbyErroneouslyOrCpuEntersCStopErroneously
        ),
        10
    );
}

#[test]
fn current_bank_follows_option_byte() {
    let btmgr = Btmgr::new(BootMeta::new(0, 0), FlashOptionBytes::new(false));
    assert_eq!(btmgr.get_current_boot_bank(), BootBank::Bank1);
    let btmgr = Btmgr::new(BootMeta::new(0, 0), FlashOptionBytes::new(true));
    assert_eq!(btmgr.get_current_boot_bank(), BootBank::Bank2);
}

#[test]
fn next_bank_collapses_decode_errors() {
    let btmgr = Btmgr::new(BootMeta::new(0, 0), FlashOptionBytes::new(false));
    assert_eq!(btmgr.get_next_boot_bank(), None);
    let btmgr = Btmgr::new(BootMeta::new(1, 0), FlashOptionBytes::new(false));
    assert_eq!(btmgr.get_next_boot_bank(), Some(BootBank::Bank1));
    let btmgr = Btmgr::new(BootMeta::new(2, 0), FlashOptionBytes::new(false));
    assert_eq!(btmgr.get_next_boot_bank(), Some(BootBank::Bank2));
    // Invalid persisted values collapse to "no change", never a failure.
    let btmgr = Btmgr::new(BootMeta::new(3, 0), FlashOptionBytes::new(false));
    assert_eq!(btmgr.get_next_boot_bank(), None);
    let btmgr = Btmgr::new(BootMeta::new(0xFFFF_FFFF, 0), FlashOptionBytes::new(false));
    assert_eq!(btmgr.get_next_boot_bank(), None);
}

#[test]
fn set_next_bank_encodes_choice() {
    let mut btmgr = Btmgr::new(BootMeta::new(9, 5), FlashOptionBytes::new(false));
    btmgr.set_next_boot_bank(Some(BootBank::Bank2));
    assert_eq!(btmgr.bootmeta.next_boot_bank_slot, 2);
    btmgr.set_next_boot_bank(Some(BootBank::Bank1));
    assert_eq!(btmgr.bootmeta.next_boot_bank_slot, 1);
    // Clearing the choice disarms the rollback.
    btmgr.set_next_boot_bank(None);
    assert_eq!(btmgr.bootmeta.next_boot_bank_slot, 0);
    assert_eq!(btmgr.bootmeta.reset_flag_slot, 5);
}

#[test]
fn reset_reason_from_snapshot() {
    let wwdg = 1 << 28;
    let btmgr = Btmgr::new(BootMeta::new(0, wwdg), FlashOptionBytes::new(false));
    assert_eq!(btmgr.get_reset_flag(), wwdg);
    assert_eq!(btmgr.get_reset_reason(), 5);
    // An undecodable snapshot is reported as the sentinel code.
    let btmgr = Btmgr::new(BootMeta::new(0, 0xFFFF_FFFF), FlashOptionBytes::new(false));
    assert_eq!(btmgr.get_reset_reason(), -1);
}
