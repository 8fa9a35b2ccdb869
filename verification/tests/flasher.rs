use monazite_boot::bootbank::BootBank;
use monazite_boot::bootmeta::BootMeta;
use monazite_boot::flasher::{
    get_sector_number, le_word, EraseOp, MirroredFlasher, OneSideFlasher, FLASH_BANK_SIZE,
};
use monazite_boot::option_bytes::FlashOptionBytes;

#[test]
fn sector_numbers() {
    assert_eq!(get_sector_number(0), 0);
    assert_eq!(get_sector_number(0x1FFFF), 0);
    assert_eq!(get_sector_number(0x20000), 1);
    assert_eq!(get_sector_number(0xE0000), 7);
    assert_eq!(get_sector_number(0xFFFFF), 7);
}

#[test]
fn le_word_assembles_bytes() {
    assert_eq!(le_word(0x01, 0x02, 0x03, 0x04), 0x0403_0201);
    assert_eq!(le_word(0xFF, 0x00, 0x00, 0x00), 0x0000_00FF);
    assert_eq!(le_word(0x00, 0x00, 0x00, 0x80), 0x8000_0000);
}

#[test]
fn unaligned_length_rejected_before_any_write() {
    // A data length that is not a multiple of 32 is rejected before any
    // write: no write operation is produced at all.
    let flasher = OneSideFlasher::new(
        BootBank::Bank1,
        FlashOptionBytes::new(false),
        BootMeta::new(0, 0),
    );
    assert!(flasher.program_page(0, &vec![0u8; 31]).is_err());
    assert!(flasher.program_page(0, &vec![0u8; 33]).is_err());
    assert!(flasher.program_page(0, &vec![0u8; 48]).is_err());
    let mirrored = MirroredFlasher::new();
    assert!(mirrored.program_page(0, &vec![0u8; 31]).is_err());
    assert!(mirrored.program_page(0, &vec![0u8; 16]).is_err());
}

#[test]
fn unaligned_address_rejected_before_any_write() {
    let flasher = OneSideFlasher::new(
        BootBank::Bank1,
        FlashOptionBytes::new(false),
        BootMeta::new(0, 0),
    );
    assert!(flasher.program_page(2, &vec![0u8; 32]).is_err());
    let mirrored = MirroredFlasher::new();
    assert!(mirrored.program_page(7, &vec![0u8; 32]).is_err());
}

#[test]
fn one_side_matching_side_writes_in_place() {
    // Logical bank 1 while physical bank 1 is active: no offset, no
    // option-byte change.
    let flasher = OneSideFlasher::new(
        BootBank::Bank1,
        FlashOptionBytes::new(false),
        BootMeta::new(0, 0),
    );
    assert!(!flasher.flop.persisted_swap_bank);
    assert_eq!(flasher.bank_address_offset(), 0);
    let data: Vec<u8> = (0u8..32).collect();
    let ops = flasher.program_page(0x40, &data).unwrap();
    assert_eq!(ops.len(), 1);
    assert_eq!(ops[0].addr, 0x40);
    assert_eq!(ops[0].words[0], 0x0302_0100);
    assert_eq!(ops[0].words[7], 0x1F1E_1D1C);
}

#[test]
fn one_side_other_side_writes_one_bank_higher() {
    // Programming logical bank 2 while physical bank 1 is active: the
    // writes land one bank size higher, the option byte is flipped so
    // logical addressing stays stable, and the next-boot-bank slot is
    // cleared as an initialization side effect.
    let flasher = OneSideFlasher::new(
        BootBank::Bank2,
        FlashOptionBytes::new(false),
        BootMeta::new(2, 7),
    );
    assert!(flasher.flop.persisted_swap_bank);
    assert!(!flasher.flop.effective_swap_bank);
    assert_eq!(flasher.meta.next_boot_bank_slot, 0);
    assert_eq!(flasher.meta.reset_flag_slot, 7);
    assert_eq!(flasher.bank_address_offset(), FLASH_BANK_SIZE);
    let data: Vec<u8> = (0u8..64).collect();
    let ops = flasher.program_page(0x100, &data).unwrap();
    assert_eq!(ops.len(), 2);
    assert_eq!(ops[0].addr, FLASH_BANK_SIZE + 0x100);
    assert_eq!(ops[1].addr, FLASH_BANK_SIZE + 0x120);
}

#[test]
fn one_side_init_clears_slot_even_when_sides_match() {
    let flasher = OneSideFlasher::new(
        BootBank::Bank1,
        FlashOptionBytes::new(false),
        BootMeta::new(1, 0),
    );
    assert_eq!(flasher.meta.next_boot_bank_slot, 0);
    assert!(!flasher.flop.persisted_swap_bank);
}

#[test]
fn mirrored_writes_identical_bytes_to_both_banks() {
    // A mirrored page lands at the same offset in both physical banks,
    // with identical words, one bank size apart.
    let mirrored = MirroredFlasher::new();
    let data: Vec<u8> = (0u8..64).map(|b| b.wrapping_mul(3)).collect();
    let ops = mirrored.program_page(0x200, &data).unwrap();
    assert_eq!(ops.len(), 4);
    let n = ops.len() / 2;
    for i in 0..n {
        assert_eq!(ops[i].words, ops[n + i].words);
        assert_eq!(ops[i].addr + FLASH_BANK_SIZE, ops[n + i].addr);
    }
    assert_eq!(ops[0].addr, 0x200);
    assert_eq!(ops[1].addr, 0x220);
    // The words really are the page data, little-endian.
    assert_eq!(ops[0].words[0], u32::from_le_bytes([0, 3, 6, 9]));
}

#[test]
fn mirrored_erase_targets_same_sector_in_both_banks() {
    let mirrored = MirroredFlasher::new();
    assert_eq!(
        mirrored.erase_sector(0x40000),
        vec![
            EraseOp::Sector(BootBank::Bank1, 2),
            EraseOp::Sector(BootBank::Bank2, 2)
        ]
    );
    assert_eq!(
        mirrored.erase_all(),
        vec![EraseOp::Bank(BootBank::Bank1), EraseOp::Bank(BootBank::Bank2)]
    );
}

#[test]
fn one_side_erase_targets_own_bank() {
    let flasher = OneSideFlasher::new(
        BootBank::Bank2,
        FlashOptionBytes::new(true),
        BootMeta::new(0, 0),
    );
    assert_eq!(flasher.erase_sector(0x40000), EraseOp::Sector(BootBank::Bank2, 2));
    assert_eq!(flasher.erase_all(), EraseOp::Bank(BootBank::Bank2));
    // Logical bank 2 while bank 2 is active: no offset.
    assert_eq!(flasher.bank_address_offset(), 0);
}
