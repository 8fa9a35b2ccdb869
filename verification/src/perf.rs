//! Cycle-count bookkeeping for periodic tasks.
//!
//! A [`Counter`] accumulates the cycles spent in one code region between
//! `begin` and `end`; a [`Window`] folds whole counter periods into a
//! running sum and maximum.  The cycle counter itself is hardware: its
//! readings are handed in as plain values.

use vstd::prelude::*;

verus! {

/// One measurement window: how many periods were folded in, the largest
/// period, and the total.
#[derive(Clone, Copy, Debug, PartialEq, Eq, Structural, Default)]
pub struct Window {
    pub ticks: u32,
    pub max: u32,
    pub sum: u32,
}

impl Window {
    /// An empty window.
    pub fn new() -> (window: Self)
        ensures
            window.ticks == 0,
            window.max == 0,
            window.sum == 0,
    {
        Self { ticks: 0, max: 0, sum: 0 }
    }

    /// Folds the counter's period into the window and starts the counter
    /// on a fresh period.
    pub fn tick(&mut self, counter: &mut Counter)
        requires
            old(self).sum + old(counter).sum <= u32::MAX,
            old(self).ticks < u32::MAX,
        ensures
            final(self).sum == old(self).sum + old(counter).sum,
            final(self).max == if old(counter).sum > old(self).max {
                old(counter).sum
            } else {
                old(self).max
            },
            final(self).ticks == old(self).ticks + 1,
            final(counter).sum == 0,
            final(counter).samples == old(counter).samples,
            final(counter).start == old(counter).start,
    {
        self.sum = self.sum + counter.sum;
        if counter.sum > self.max {
            self.max = counter.sum;
        }
        counter.sum = 0;
        self.ticks = self.ticks + 1;
    }

    /// Starts the window over.
    pub fn reset(&mut self)
        ensures
            final(self).sum == 0,
            final(self).max == 0,
            final(self).ticks == 0,
    {
        self.sum = 0;
        self.max = 0;
        self.ticks = 0;
    }
}

/// One region's accumulator: how many samples were taken, their total in
/// cycles, and the cycle count at the open sample's start.
#[derive(Clone, Copy, Debug, PartialEq, Eq, Structural, Default)]
pub struct Counter {
    pub samples: u32,
    pub sum: u32,
    pub start: u32,
}

impl Counter {
    /// An empty accumulator.
    pub fn new() -> (counter: Self)
        ensures
            counter.samples == 0,
            counter.sum == 0,
            counter.start == 0,
    {
        Self { samples: 0, sum: 0, start: 0 }
    }

    /// Opens a sample at the given cycle-counter reading.
    pub fn begin(&mut self, now: u32)
        ensures
            final(self).start == now,
            final(self).sum == old(self).sum,
            final(self).samples == old(self).samples,
    {
        self.start = now;
    }

    /// Closes the open sample at the given cycle-counter reading; the
    /// free-running counter may have wrapped once since `begin`.
    pub fn end(&mut self, now: u32)
        requires
            old(self).sum + (now as int - old(self).start as int) % 0x1_0000_0000 <= u32::MAX,
            old(self).samples < u32::MAX,
        ensures
            final(self).sum == old(self).sum + (now as int - old(self).start as int)
                % 0x1_0000_0000,
            final(self).samples == old(self).samples + 1,
            final(self).start == old(self).start,
    {
        let elapsed = if now >= self.start {
            now - self.start
        } else {
            let gap = self.start - now;
            0xFFFF_FFFFu32 - gap + 1
        };
        assert(elapsed == (now as int - self.start as int) % 0x1_0000_0000);
        self.sum = self.sum + elapsed;
        self.samples = self.samples + 1;
    }
}

} // verus!
