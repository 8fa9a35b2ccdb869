//! The option-byte controller: the persistent swap-bank bit.
//!
//! A single hardware bit decides which physical bank is mapped at the boot
//! address.  Programming it goes through an unlock-key sequence, a staged
//! programming register, a busy-waited commit and a re-lock; the effective
//! mapping never changes until the next reset.  The unlock keys, the busy
//! wait and the interrupt masking are the hardware's side; this model owns
//! the bit in its three places (effective, staged, persisted) together
//! with the lock, and gives the whole sequence an exact contract.

use vstd::prelude::*;

verus! {

/// The swap-bank bit in its three places, and the option-byte lock.
pub struct FlashOptionBytes {
    /// The mapping in effect since the last reset.  Reads return this
    /// value no matter what has been staged or persisted since.
    pub effective_swap_bank: bool,
    /// The bit staged in the programming register, not yet persisted.
    pub staged_swap_bank: bool,
    /// The bit in persistent storage: the mapping of the next boot.
    pub persisted_swap_bank: bool,
    /// Whether the option-byte registers are locked against programming.
    pub locked: bool,
}

impl FlashOptionBytes {
    /// Attaches to the option bytes as the hardware presents them after a
    /// reset: the persisted bit is in effect and everything is locked.
    pub fn new(swap_bank: bool) -> (flop: Self)
        ensures
            flop.effective_swap_bank == swap_bank,
            flop.staged_swap_bank == swap_bank,
            flop.persisted_swap_bank == swap_bank,
            flop.locked,
    {
        Self {
            effective_swap_bank: swap_bank,
            staged_swap_bank: swap_bank,
            persisted_swap_bank: swap_bank,
            locked: true,
        }
    }

    /// Reads the swap-bank bit in effect for the current boot.  Staging
    /// and programming never change this value before the next reset.
    pub fn read_swap_bank(&self) -> (swap_bank: bool)
        ensures
            swap_bank == self.effective_swap_bank,
    {
        self.effective_swap_bank
    }

    /// Unlocks the option-byte registers with the two-key sequence.
    pub fn unlock(&mut self)
        ensures
            !final(self).locked,
            final(self).effective_swap_bank == old(self).effective_swap_bank,
            final(self).staged_swap_bank == old(self).staged_swap_bank,
            final(self).persisted_swap_bank == old(self).persisted_swap_bank,
    {
        self.locked = false;
    }

    /// Locks the option-byte registers again.
    pub fn lock(&mut self)
        ensures
            final(self).locked,
            final(self).effective_swap_bank == old(self).effective_swap_bank,
            final(self).staged_swap_bank == old(self).staged_swap_bank,
            final(self).persisted_swap_bank == old(self).persisted_swap_bank,
    {
        self.locked = true;
    }

    /// Commits the staged bit to persistent storage and busy-waits for
    /// completion.  While locked the commit has no effect.  The effective
    /// mapping stays as it was; the new value matters only after reset.
    pub fn program(&mut self)
        ensures
            final(self).persisted_swap_bank == if old(self).locked {
                old(self).persisted_swap_bank
            } else {
                old(self).staged_swap_bank
            },
            final(self).effective_swap_bank == old(self).effective_swap_bank,
            final(self).staged_swap_bank == old(self).staged_swap_bank,
            final(self).locked == old(self).locked,
    {
        if !self.locked {
            self.persisted_swap_bank = self.staged_swap_bank;
        }
    }

    /// Runs the whole two-phase sequence: unlock, stage the bit, program,
    /// busy-wait, re-lock.  Must run with interrupts globally masked; it
    /// is not re-entrant.  The change takes effect only at the next reset,
    /// which the caller must trigger explicitly.
    pub fn write_swap_bank(&mut self, swap_bank: bool)
        ensures
            final(self).persisted_swap_bank == swap_bank,
            final(self).staged_swap_bank == swap_bank,
            final(self).effective_swap_bank == old(self).effective_swap_bank,
            final(self).locked,
    {
        self.unlock();
        self.staged_swap_bank = swap_bank;
        self.program();
        self.lock();
    }

    /// The state the controller presents after the reset that the caller
    /// triggers once a new bit is persisted: the persisted bit becomes
    /// effective and the registers come up locked.
    pub fn after_reset(self) -> (flop: Self)
        ensures
            flop.effective_swap_bank == self.persisted_swap_bank,
            flop.staged_swap_bank == self.persisted_swap_bank,
            flop.persisted_swap_bank == self.persisted_swap_bank,
            flop.locked,
    {
        Self::new(self.persisted_swap_bank)
    }
}

} // verus!
