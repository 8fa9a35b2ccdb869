//! The bank flash programmers used by the external flashing tool.
//!
//! The tool hands in page addresses and byte data; the flash controller
//! takes 32-byte chunks of eight 32-bit little-endian words, programmed
//! with 64-bit parallelism between barriers.  The unlock keys, the
//! barriers, the busy wait and the volatile stores are the hardware's
//! side; this module validates each request before any write, translates
//! logical addresses to physical bank offsets, and turns page data into
//! the exact word-level write operations the hardware must perform.

use vstd::prelude::*;

verus! {

use crate::bootbank::BootBank;
use crate::bootmeta::BootMeta;
use crate::option_bytes::FlashOptionBytes;

/// The size of one flash sector in bytes.
pub const FLASH_SECTOR_SIZE: u32 = 0x20000;

/// The size of one flash bank in bytes: the offset between the two
/// physical banks in the address space.
pub const FLASH_BANK_SIZE: usize = 0x0010_0000;

/// Each programming chunk is this many bytes: eight 32-bit words.
pub const CHUNK_SIZE: usize = 32;

/// The sector a flash address falls into.
pub open spec fn spec_get_sector_number(addr: u32) -> u8 {
    ((addr / 0x20000) & 0xFF) as u8
}

/// Maps a flash address to its sector number.
pub fn get_sector_number(addr: u32) -> (sector: u8)
    ensures
        sector == spec_get_sector_number(addr),
{
    ((addr / FLASH_SECTOR_SIZE) & 0xFF) as u8
}

/// The 32-bit word formed from four bytes in little-endian order, the
/// order in which the programming data lies in memory on this target.
pub open spec fn spec_le_word(b0: u8, b1: u8, b2: u8, b3: u8) -> u32 {
    (b0 as u32) | ((b1 as u32) << 8) | ((b2 as u32) << 16) | ((b3 as u32) << 24)
}

/// Assembles four data bytes into one programming word.
pub fn le_word(b0: u8, b1: u8, b2: u8, b3: u8) -> (word: u32)
    ensures
        word == spec_le_word(b0, b1, b2, b3),
{
    (b0 as u32) | ((b1 as u32) << 8) | ((b2 as u32) << 16) | ((b3 as u32) << 24)
}

/// The eight words of the chunk at index `chunk` of the page data.
pub open spec fn spec_chunk_words(data: Seq<u8>, chunk: int) -> Seq<u32> {
    Seq::new(
        8,
        |w: int|
            spec_le_word(
                data[32 * chunk + 4 * w],
                data[32 * chunk + 4 * w + 1],
                data[32 * chunk + 4 * w + 2],
                data[32 * chunk + 4 * w + 3],
            ),
    )
}

/// One write operation of the flash controller: eight 32-bit words stored
/// word by word from `addr` upward, between barriers, then busy-waited.
#[derive(Debug, PartialEq, Eq)]
pub struct WriteOp {
    /// The physical address of the first word.
    pub addr: usize,
    /// The eight words, in store order.
    pub words: Vec<u32>,
}

/// A programming request that was rejected before any write: the address
/// was not 4-byte aligned or the data length was not a multiple of 32.
#[derive(Clone, Copy, Debug, PartialEq, Eq, Structural)]
pub struct FlashAlgoError;

/// One erase operation of the flash controller, against one physical
/// bank's register block: the whole bank, or a single sector of it.
#[derive(Clone, Copy, Debug, PartialEq, Eq, Structural)]
pub enum EraseOp {
    /// Erase the whole physical bank.
    Bank(BootBank),
    /// Erase one sector of the physical bank.
    Sector(BootBank, u8),
}

/// The write operations of one page, laid out from `base` upward: one op
/// per 32-byte chunk, in ascending address order, each carrying the words
/// of its chunk.
pub open spec fn spec_page_ops_ok(ops: Seq<WriteOp>, base: int, data: Seq<u8>) -> bool {
    &&& ops.len() == data.len() / 32
    &&& forall|i: int|
        0 <= i < ops.len() ==> (#[trigger] ops[i]).addr == base + 32 * i
    &&& forall|i: int|
        0 <= i < ops.len() ==> (#[trigger] ops[i]).words@ == spec_chunk_words(data, i)
}

/// Validates a page request and builds its write operations at `base_addr`.
/// The request is rejected, before any operation is produced, unless the
/// address is 4-byte aligned and the data length is a multiple of 32.
pub fn page_write_ops(base_addr: usize, addr: u32, data: &Vec<u8>) -> (result: Result<
    Vec<WriteOp>,
    FlashAlgoError,
>)
    requires
        base_addr + addr + data@.len() <= usize::MAX,
    ensures
        match result {
            Ok(ops) => {
                &&& addr % 4 == 0
                &&& data@.len() % 32 == 0
                &&& spec_page_ops_ok(ops@, base_addr + addr, data@)
            },
            Err(_) => addr % 4 != 0 || data@.len() % 32 != 0,
        },
{
    if addr % 4 != 0 {
        // The destination must be 32-bit aligned.
        return Err(FlashAlgoError);
    }
    if data.len() % 32 != 0 {
        // The data must be a whole number of 32-byte (256-bit) chunks.
        return Err(FlashAlgoError);
    }
    let num_chunks = data.len() / 32;
    let base: usize = base_addr + addr as usize;
    let mut ops: Vec<WriteOp> = Vec::new();
    let mut i: usize = 0;
    while i < num_chunks
        invariant
            i <= num_chunks,
            num_chunks == data@.len() / 32,
            data@.len() % 32 == 0,
            base == base_addr + addr,
            base + data@.len() <= usize::MAX,
            ops@.len() == i,
            forall|k: int| 0 <= k < i ==> (#[trigger] ops@[k]).addr == base + 32 * k,
            forall|k: int|
                0 <= k < i ==> (#[trigger] ops@[k]).words@ == spec_chunk_words(data@, k),
        decreases num_chunks - i,
    {
        let src = 32 * i;
        let mut words: Vec<u32> = Vec::new();
        let mut w: usize = 0;
        while w < 8
            invariant
                w <= 8,
                src == 32 * i,
                i < num_chunks,
                num_chunks == data@.len() / 32,
                data@.len() % 32 == 0,
                words@.len() == w,
                forall|k: int|
                    0 <= k < w ==> #[trigger] words@[k] == spec_le_word(
                        data@[32 * i + 4 * k],
                        data@[32 * i + 4 * k + 1],
                        data@[32 * i + 4 * k + 2],
                        data@[32 * i + 4 * k + 3],
                    ),
            decreases 8 - w,
        {
            let b0 = data[src + 4 * w];
            let b1 = data[src + 4 * w + 1];
            let b2 = data[src + 4 * w + 2];
            let b3 = data[src + 4 * w + 3];
            words.push(le_word(b0, b1, b2, b3));
            w += 1;
        }
        proof {
            assert(words@ =~= spec_chunk_words(data@, i as int));
        }
        ops.push(WriteOp { addr: base + 32 * i, words });
        i += 1;
    }
    Ok(ops)
}

/// Where logical addresses of the given side land relative to the flash
/// base: at the base while the option byte maps that side at the boot
/// address, one bank size higher otherwise.
pub open spec fn spec_bank_address_offset(side: BootBank, effective_swap_bank: bool) -> usize {
    if (side is Bank2) == effective_swap_bank {
        0
    } else {
        FLASH_BANK_SIZE
    }
}

/// The single-side flash programmer: programs one logical side, stable
/// under whichever physical bank is currently active.
///
/// On construction it unlocks the target bank (hardware side), flips the
/// option byte when the logical side is not the one the option byte
/// currently maps it to, and clears the next-boot-bank slot so that an
/// interrupted earlier update cannot immediately roll back a fresh flash.
pub struct OneSideFlasher {
    /// The logical side this programmer writes; fixed at construction.
    pub side: BootBank,
    /// The option-byte controller, as taken over from the halted firmware.
    pub flop: FlashOptionBytes,
    /// The battery-backed boot metadata.
    pub meta: BootMeta,
}

impl OneSideFlasher {
    /// Constructs the programmer and runs its initialization: the option
    /// byte is flipped to the logical side when it does not already map
    /// it, and the next-boot-bank slot is cleared.  The effective mapping
    /// stays as it was for the whole programming session.
    pub fn new(side: BootBank, flop: FlashOptionBytes, meta: BootMeta) -> (flasher: Self)
        ensures
            flasher.side == side,
            flasher.flop.effective_swap_bank == flop.effective_swap_bank,
            flasher.flop.persisted_swap_bank == if (side is Bank2) != flop.effective_swap_bank {
                (side is Bank2)
            } else {
                flop.persisted_swap_bank
            },
            flasher.meta.next_boot_bank_slot == 0,
            flasher.meta.reset_flag_slot == meta.reset_flag_slot,
    {
        let mut flop = flop;
        let mut meta = meta;
        let side_bit = side.to_swap_bank();
        if side_bit != flop.read_swap_bank() {
            flop.write_swap_bank(side_bit);
        }
        // Behaviour agreed with the bootloader: a cleared slot means no
        // pending swap, so the freshly written image is not rolled back.
        meta.next_boot_bank_slot = 0;
        Self { side, flop, meta }
    }

    /// The offset this session adds to every logical address.
    pub fn bank_address_offset(&self) -> (offset: usize)
        ensures
            offset == spec_bank_address_offset(self.side, self.flop.effective_swap_bank),
    {
        if self.side.to_swap_bank() == self.flop.read_swap_bank() {
            0
        } else {
            FLASH_BANK_SIZE
        }
    }

    /// The erase of the logical side's whole physical bank.
    pub fn erase_all(&self) -> (op: EraseOp)
        ensures
            op == EraseOp::Bank(self.side),
    {
        EraseOp::Bank(self.side)
    }

    /// The erase an erase request for `addr` must perform: the address's
    /// sector, in the logical side's physical bank.
    pub fn erase_sector(&self, addr: u32) -> (op: EraseOp)
        ensures
            op == EraseOp::Sector(self.side, spec_get_sector_number(addr)),
    {
        EraseOp::Sector(self.side, get_sector_number(addr))
    }

    /// Validates a page request and translates it into the write
    /// operations on the logical side's physical bank.  Rejected before
    /// any write unless the address is 4-byte aligned and the data length
    /// is a multiple of 32 bytes.
    pub fn program_page(&self, addr: u32, data: &Vec<u8>) -> (result: Result<
        Vec<WriteOp>,
        FlashAlgoError,
    >)
        requires
            FLASH_BANK_SIZE + addr + data@.len() <= usize::MAX,
        ensures
            match result {
                Ok(ops) => {
                    &&& addr % 4 == 0
                    &&& data@.len() % 32 == 0
                    &&& spec_page_ops_ok(
                        ops@,
                        spec_bank_address_offset(self.side, self.flop.effective_swap_bank) + addr,
                        data@,
                    )
                },
                Err(_) => addr % 4 != 0 || data@.len() % 32 != 0,
            },
    {
        page_write_ops(self.bank_address_offset(), addr, data)
    }
}

/// The write operations of a mirrored page request: the page's chunks on
/// physical bank 1, followed by the same chunks one bank size higher on
/// physical bank 2.
pub open spec fn spec_mirrored_ops_ok(ops: Seq<WriteOp>, addr: int, data: Seq<u8>) -> bool {
    &&& ops.len() == 2 * (data.len() / 32)
    &&& spec_page_ops_ok(ops.take((data.len() / 32) as int), addr, data)
    &&& spec_page_ops_ok(ops.skip((data.len() / 32) as int), addr + FLASH_BANK_SIZE, data)
}

/// The mirrored flash programmer: applies identical erase and program
/// requests to both physical banks at the same offset, for factory
/// programming or disaster recovery when no assumption about the active
/// bank is valid.
pub struct MirroredFlasher {
}

impl MirroredFlasher {
    /// Constructs the programmer.  It keeps no session state: the
    /// battery-backed metadata is left alone, and both banks are unlocked
    /// and their error flags cleared on the hardware side.
    pub fn new() -> Self {
        Self {  }
    }

    /// The erases of both whole physical banks, bank 1 first.
    pub fn erase_all(&self) -> (ops: Vec<EraseOp>)
        ensures
            ops@ == seq![EraseOp::Bank(BootBank::Bank1), EraseOp::Bank(BootBank::Bank2)],
    {
        let mut ops: Vec<EraseOp> = Vec::new();
        ops.push(EraseOp::Bank(BootBank::Bank1));
        ops.push(EraseOp::Bank(BootBank::Bank2));
        proof {
            assert(ops@ =~= seq![
                EraseOp::Bank(BootBank::Bank1),
                EraseOp::Bank(BootBank::Bank2),
            ]);
        }
        ops
    }

    /// The erases an erase request for `addr` must perform: the same
    /// sector in both physical banks, bank 1 first.
    pub fn erase_sector(&self, addr: u32) -> (ops: Vec<EraseOp>)
        ensures
            ops@ == seq![
                EraseOp::Sector(BootBank::Bank1, spec_get_sector_number(addr)),
                EraseOp::Sector(BootBank::Bank2, spec_get_sector_number(addr)),
            ],
    {
        let sector = get_sector_number(addr);
        let mut ops: Vec<EraseOp> = Vec::new();
        ops.push(EraseOp::Sector(BootBank::Bank1, sector));
        ops.push(EraseOp::Sector(BootBank::Bank2, sector));
        proof {
            assert(ops@ =~= seq![
                EraseOp::Sector(BootBank::Bank1, spec_get_sector_number(addr)),
                EraseOp::Sector(BootBank::Bank2, spec_get_sector_number(addr)),
            ]);
        }
        ops
    }

    /// Validates a page request and translates it into the write
    /// operations on both physical banks: the same chunks at the same
    /// offset, one bank size apart.  Rejected before any write unless the
    /// address is 4-byte aligned and the data length is a multiple of 32.
    pub fn program_page(&self, addr: u32, data: &Vec<u8>) -> (result: Result<
        Vec<WriteOp>,
        FlashAlgoError,
    >)
        requires
            FLASH_BANK_SIZE + addr + data@.len() <= usize::MAX,
        ensures
            match result {
                Ok(ops) => {
                    &&& addr % 4 == 0
                    &&& data@.len() % 32 == 0
                    &&& spec_mirrored_ops_ok(ops@, addr as int, data@)
                },
                Err(_) => addr % 4 != 0 || data@.len() % 32 != 0,
            },
    {
        let first = page_write_ops(0, addr, data);
        let mut first_ops = match first {
            Ok(ops) => ops,
            Err(e) => {
                return Err(e);
            },
        };
        let second = page_write_ops(FLASH_BANK_SIZE, addr, data);
        let mut second_ops = match second {
            Ok(ops) => ops,
            Err(e) => {
                return Err(e);
            },
        };
        let ghost n: int = (data@.len() / 32) as int;
        let ghost first_view = first_ops@;
        first_ops.append(&mut second_ops);
        proof {
            assert(first_ops@.take(n) =~= first_view);
        }
        Ok(first_ops)
    }
}

/// Mirrored programming writes identical bytes at the same offset in both
/// physical banks: the operation for chunk `i` on bank 2 stores the same
/// words as the one on bank 1, exactly one bank size higher.
pub proof fn lemma_mirrored_writes_identical(ops: Seq<WriteOp>, addr: int, data: Seq<u8>, i: int)
    requires
        spec_mirrored_ops_ok(ops, addr, data),
        0 <= i < data.len() / 32,
    ensures
        ops[data.len() / 32 + i].words@ == ops[i].words@,
        ops[data.len() / 32 + i].addr == ops[i].addr + FLASH_BANK_SIZE,
{
    let n: int = (data.len() / 32) as int;
    assert(ops.take(n)[i] == ops[i]);
    assert(ops.skip(n)[i] == ops[i + n]);
    assert(ops.take(n)[i].words@ == spec_chunk_words(data, i));
    assert(ops.skip(n)[i].words@ == spec_chunk_words(data, i));
}

} // verus!
