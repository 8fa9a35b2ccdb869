//! The in-application flash programmer for the inactive bank.
//!
//! The running firmware lets the ground segment upload a new image into
//! the second bank, one staged block at a time.  Every operation is
//! split into a non-blocking start and an interrupt-driven `poll`: the
//! start validates the request and issues the first hardware step, and
//! each end-of-operation interrupt advances the state machine by one
//! sector erase or one 32-byte row.  An operation already in progress is
//! reported as a distinguishable would-block error so callers can retry
//! instead of spinning inside the call.  The register writes, the unlock
//! keys and the volatile row stores are the hardware's side; this model
//! owns the staging buffer and the state, and returns the exact hardware
//! step to perform.

use vstd::prelude::*;

verus! {

use crate::flasher::{FLASH_BANK_SIZE, WriteOp, le_word, spec_le_word};

/// The first sector the bulk erase starts at.
pub const SECTOR_FIRST: u8 = 0;

/// The last sector the bulk erase covers; the sector above it holds the
/// bootloader and is never erased from here.
pub const SECTOR_LAST: u8 = 6;

/// Where the second bank lies in the address space.
pub const FLASH_BANK2_BASE: usize = 0x0810_0000;

/// One programming row: 32 bytes, 256 bits.
pub const FLASH_ROW_SIZE: usize = 32;

/// Why a start request was rejected.  No error is fatal: the caller may
/// retry a would-block and must fix an alignment or bounds violation.
#[derive(Clone, Copy, Debug, PartialEq, Eq, Structural)]
pub enum IflashError {
    /// An operation is already in progress; retry later.
    WouldBlock,
    /// The offset or the data length is not a multiple of the row size.
    NotAligned,
    /// The data does not fit the staging buffer or the bank.
    OutOfBounds,
}

/// The programmer's state between interrupts.
#[derive(Clone, Copy, Debug, PartialEq, Eq, Structural)]
pub enum State {
    /// No operation in progress; the error of the last one, if any.
    Idle { last_error: Option<IflashError> },
    /// The erase of this sector has been issued.
    Erasing { sector: u8 },
    /// The row at `dest` (from staging offset `src`) has been issued;
    /// `len` bytes remain, that row included.
    Programming { dest: usize, src: usize, len: usize },
}

/// The hardware step the caller must perform after a `poll`.
pub enum PollAction {
    /// Nothing to do: idle, or the current step has not completed.
    Wait,
    /// Issue an erase of this sector of the second bank.
    EraseSector(u8),
    /// Store these eight words, then wait for the next end-of-operation.
    ProgramRow(WriteOp),
}

/// The eight little-endian words of the 32-byte row at `src`.
pub open spec fn spec_row_words(data: Seq<u8>, src: int) -> Seq<u32> {
    Seq::new(
        8,
        |w: int|
            spec_le_word(
                data[src + 4 * w],
                data[src + 4 * w + 1],
                data[src + 4 * w + 2],
                data[src + 4 * w + 3],
            ),
    )
}

/// The in-application flash programmer: a staging buffer and the state
/// machine over it.
pub struct Iflash {
    /// The staging buffer the image blocks are copied into before the
    /// rows are programmed out of it.
    pub buffer: Vec<u8>,
    /// The state between interrupts.
    pub state: State,
}

impl Iflash {
    /// Well-formedness: while a program operation is in flight, the
    /// remaining range lies inside the staging buffer and the bank, stays
    /// row-aligned, and is never empty.
    pub open spec fn wf(&self) -> bool {
        &&& (self.state matches State::Programming { dest, src, len } ==> {
            &&& len > 0
            &&& len % 32 == 0
            &&& src % 32 == 0
            &&& dest % 32 == 0
            &&& dest >= FLASH_BANK2_BASE
            &&& src + len <= self.buffer.len()
            &&& dest + len <= FLASH_BANK2_BASE + FLASH_BANK_SIZE
        })
        &&& (self.state matches State::Erasing { sector } ==> sector <= SECTOR_LAST)
    }

    /// Takes ownership of the staging buffer and starts out idle.
    pub fn new(buffer: Vec<u8>) -> (iflash: Self)
        ensures
            iflash.buffer@ == buffer@,
            iflash.state == (State::Idle { last_error: None::<IflashError> }),
            iflash.wf(),
    {
        Self { buffer, state: State::Idle { last_error: None } }
    }

    /// The row write for the 32 staged bytes at `src`, destined for `dest`.
    fn row_op(&self, dest: usize, src: usize) -> (op: WriteOp)
        requires
            src + FLASH_ROW_SIZE <= self.buffer.len(),
        ensures
            op.addr == dest,
            op.words@ == spec_row_words(self.buffer@, src as int),
    {
        let mut words: Vec<u32> = Vec::new();
        let mut w: usize = 0;
        while w < 8
            invariant
                w <= 8,
                src + 32 <= self.buffer.len(),
                words@.len() == w,
                forall|k: int|
                    0 <= k < w ==> #[trigger] words@[k] == spec_le_word(
                        self.buffer@[src + 4 * k],
                        self.buffer@[src + 4 * k + 1],
                        self.buffer@[src + 4 * k + 2],
                        self.buffer@[src + 4 * k + 3],
                    ),
            decreases 8 - w,
        {
            let b0 = self.buffer[src + 4 * w];
            let b1 = self.buffer[src + 4 * w + 1];
            let b2 = self.buffer[src + 4 * w + 2];
            let b3 = self.buffer[src + 4 * w + 3];
            words.push(le_word(b0, b1, b2, b3));
            w += 1;
        }
        proof {
            assert(words@ =~= spec_row_words(self.buffer@, src as int));
        }
        WriteOp { addr: dest, words }
    }

    /// Starts the bulk erase of the application sectors of the second
    /// bank.  Would-block if any operation is already in progress; the
    /// caller then retries instead of spin-waiting inside the call.
    pub fn erase(&mut self) -> (result: Result<u8, IflashError>)
        requires
            old(self).wf(),
        ensures
            final(self).wf(),
            final(self).buffer@ == old(self).buffer@,
            match result {
                Ok(sector) => {
                    &&& old(self).state is Idle
                    &&& sector == SECTOR_FIRST
                    &&& final(self).state == (State::Erasing { sector: SECTOR_FIRST })
                },
                Err(e) => {
                    &&& e == IflashError::WouldBlock
                    &&& !(old(self).state is Idle)
                    &&& final(self).state == old(self).state
                },
            },
    {
        match self.state {
            State::Idle { .. } => {
                self.state = State::Erasing { sector: SECTOR_FIRST };
                Ok(SECTOR_FIRST)
            },
            _ => Err(IflashError::WouldBlock),
        }
    }

    /// Starts programming `data` at `offset` within the second bank:
    /// validates the request, stages the data, and returns the first row
    /// write.  Rejected before any write or state change unless offset
    /// and length are row-aligned and the data fits both the staging
    /// buffer and the bank; would-block if an operation is in progress.
    /// Empty data completes at once, with nothing written.
    pub fn program(&mut self, offset: usize, data: &Vec<u8>) -> (result: Result<
        Option<WriteOp>,
        IflashError,
    >)
        requires
            old(self).wf(),
        ensures
            final(self).wf(),
            match result {
                Ok(first_row) => {
                    &&& offset % 32 == 0
                    &&& data@.len() % 32 == 0
                    &&& data@.len() <= old(self).buffer@.len()
                    &&& offset + data@.len() <= FLASH_BANK_SIZE
                    &&& old(self).state is Idle
                    &&& final(self).buffer@ == data@ + old(self).buffer@.skip(data@.len() as int)
                    &&& if data@.len() == 0 {
                        &&& first_row is None
                        &&& final(self).state == (State::Idle { last_error: None::<IflashError> })
                    } else {
                        &&& final(self).state == (State::Programming {
                            dest: (FLASH_BANK2_BASE + offset) as usize,
                            src: 0usize,
                            len: data@.len() as usize,
                        })
                        &&& first_row matches Some(op)
                        &&& (first_row matches Some(op) ==> {
                            &&& op.addr == FLASH_BANK2_BASE + offset
                            &&& op.words@ == spec_row_words(final(self).buffer@, 0)
                        })
                    }
                },
                Err(e) => {
                    &&& final(self).state == old(self).state
                    &&& final(self).buffer@ == old(self).buffer@
                    &&& match e {
                        IflashError::NotAligned => offset % 32 != 0 || data@.len() % 32 != 0,
                        IflashError::OutOfBounds => {
                            &&& offset % 32 == 0
                            &&& data@.len() % 32 == 0
                            &&& (data@.len() > old(self).buffer@.len() || offset + data@.len()
                                > FLASH_BANK_SIZE)
                        },
                        IflashError::WouldBlock => {
                            &&& offset % 32 == 0
                            &&& data@.len() % 32 == 0
                            &&& data@.len() <= old(self).buffer@.len()
                            &&& offset + data@.len() <= FLASH_BANK_SIZE
                            &&& !(old(self).state is Idle)
                        },
                    }
                },
            },
    {
        if offset % FLASH_ROW_SIZE != 0 {
            return Err(IflashError::NotAligned);
        }
        if data.len() % FLASH_ROW_SIZE != 0 {
            return Err(IflashError::NotAligned);
        }
        if data.len() > self.buffer.len() {
            return Err(IflashError::OutOfBounds);
        }
        if offset > FLASH_BANK_SIZE || data.len() > FLASH_BANK_SIZE - offset {
            return Err(IflashError::OutOfBounds);
        }
        match self.state {
            State::Idle { .. } => {},
            _ => {
                return Err(IflashError::WouldBlock);
            },
        }
        // Stage the data at the front of the buffer.
        let mut j: usize = 0;
        while j < data.len()
            invariant
                j <= data@.len(),
                data@.len() <= self.buffer@.len(),
                self.buffer@.len() == old(self).buffer@.len(),
                forall|k: int| 0 <= k < j ==> self.buffer@[k] == data@[k],
                forall|k: int|
                    j <= k < self.buffer@.len() ==> self.buffer@[k] == old(self).buffer@[k],
                self.state == old(self).state,
            decreases data@.len() - j,
        {
            let b = data[j];
            self.buffer[j] = b;
            j += 1;
        }
        proof {
            assert(self.buffer@ =~= data@ + old(self).buffer@.skip(data@.len() as int));
        }
        if data.len() == 0 {
            // Nothing to program: the operation completes immediately.
            self.state = State::Idle { last_error: None };
            return Ok(None);
        }
        let dest = FLASH_BANK2_BASE + offset;
        let op = self.row_op(dest, 0);
        self.state = State::Programming { dest, src: 0, len: data.len() };
        Ok(Some(op))
    }

    /// Advances the state machine by one end-of-operation interrupt.
    /// `eop` is the end-of-operation flag as read from the hardware; the
    /// returned action is the next hardware step, if any.
    pub fn poll(&mut self, eop: bool) -> (action: PollAction)
        requires
            old(self).wf(),
        ensures
            final(self).wf(),
            final(self).buffer@ == old(self).buffer@,
            match old(self).state {
                State::Idle { .. } => {
                    &&& final(self).state == old(self).state
                    &&& action is Wait
                },
                State::Erasing { sector } => {
                    &&& !eop ==> final(self).state == old(self).state && action is Wait
                    &&& (eop && sector == SECTOR_LAST) ==> final(self).state == (State::Idle {
                        last_error: None::<IflashError>,
                    }) && action is Wait
                    &&& (eop && sector != SECTOR_LAST) ==> {
                        &&& final(self).state == (State::Erasing { sector: (sector + 1) as u8 })
                        &&& action matches PollAction::EraseSector(next) && next == sector + 1
                    }
                },
                State::Programming { dest, src, len } => {
                    &&& !eop ==> final(self).state == old(self).state && action is Wait
                    &&& (eop && len == 32) ==> final(self).state == (State::Idle {
                        last_error: None::<IflashError>,
                    }) && action is Wait
                    &&& (eop && len != 32) ==> {
                        &&& final(self).state == (State::Programming {
                            dest: (dest + 32) as usize,
                            src: (src + 32) as usize,
                            len: (len - 32) as usize,
                        })
                        &&& action matches PollAction::ProgramRow(op) && op.addr == dest + 32
                            && op.words@ == spec_row_words(old(self).buffer@, src + 32)
                    }
                },
            },
    {
        match self.state {
            State::Idle { .. } => PollAction::Wait,
            State::Erasing { sector } => {
                if eop {
                    if sector == SECTOR_LAST {
                        self.state = State::Idle { last_error: None };
                        PollAction::Wait
                    } else {
                        let next = sector + 1;
                        self.state = State::Erasing { sector: next };
                        PollAction::EraseSector(next)
                    }
                } else {
                    PollAction::Wait
                }
            },
            State::Programming { dest, src, len } => {
                if eop {
                    let dest = dest + FLASH_ROW_SIZE;
                    let src = src + FLASH_ROW_SIZE;
                    let len = len - FLASH_ROW_SIZE;
                    if len == 0 {
                        self.state = State::Idle { last_error: None };
                        PollAction::Wait
                    } else {
                        let op = self.row_op(dest, src);
                        self.state = State::Programming { dest, src, len };
                        PollAction::ProgramRow(op)
                    }
                } else {
                    PollAction::Wait
                }
            },
        }
    }

    /// The outcome of the last operation: success when idle and clean,
    /// the recorded error when idle after a failure, and would-block
    /// while an operation is still in progress.
    pub fn status(&self) -> (result: Result<(), IflashError>)
        ensures
            match self.state {
                State::Idle { last_error } => result == match last_error {
                    None => Ok::<(), IflashError>(()),
                    Some(e) => Err::<(), IflashError>(e),
                },
                _ => result == Err::<(), IflashError>(IflashError::WouldBlock),
            },
    {
        match self.state {
            State::Idle { last_error: None } => Ok(()),
            State::Idle { last_error: Some(last_error) } => Err(last_error),
            _ => Err(IflashError::WouldBlock),
        }
    }
}

} // verus!
