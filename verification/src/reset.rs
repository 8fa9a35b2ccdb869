//! Bit-exact classification of the hardware reset-cause register.
//!
//! The reset-cause register records, one flag per bit, why the processor
//! last reset.  The classification below reproduces the vendor-specific
//! decision table: ten fixed flag combinations map to named reasons, two
//! of them to the window-watchdog reason, and every other combination is
//! reported as an error carrying the raw register value.

use vstd::prelude::*;

verus! {

/// The flag positions inside the reset-cause register.
pub open spec fn spec_lpwrrstf(raw: u32) -> bool {
    raw & (1u32 << 30) != 0
}

pub open spec fn spec_wwdg1rstf(raw: u32) -> bool {
    raw & (1u32 << 28) != 0
}

pub open spec fn spec_iwdg1rstf(raw: u32) -> bool {
    raw & (1u32 << 26) != 0
}

pub open spec fn spec_sftrstf(raw: u32) -> bool {
    raw & (1u32 << 24) != 0
}

pub open spec fn spec_porrstf(raw: u32) -> bool {
    raw & (1u32 << 23) != 0
}

pub open spec fn spec_pinrstf(raw: u32) -> bool {
    raw & (1u32 << 22) != 0
}

pub open spec fn spec_borrstf(raw: u32) -> bool {
    raw & (1u32 << 21) != 0
}

pub open spec fn spec_d2rstf(raw: u32) -> bool {
    raw & (1u32 << 20) != 0
}

pub open spec fn spec_d1rstf(raw: u32) -> bool {
    raw & (1u32 << 19) != 0
}

pub open spec fn spec_cpurstf(raw: u32) -> bool {
    raw & (1u32 << 17) != 0
}

/// A raw snapshot of the reset-cause register, captured once per boot
/// before the hardware register is cleared.
pub struct ResetFlag {
    pub value: u32,
}

impl ResetFlag {
    /// Wraps a raw register snapshot.
    pub fn new(value: u32) -> (flag: Self)
        ensures
            flag.value == value,
    {
        Self { value }
    }

    /// Low-power-mode illegal entry flag.
    pub fn lpwrrstf(&self) -> (set: bool)
        ensures
            set == spec_lpwrrstf(self.value),
    {
        self.value & (1u32 << 30) != 0
    }

    /// Window-watchdog reset flag.
    pub fn wwdg1rstf(&self) -> (set: bool)
        ensures
            set == spec_wwdg1rstf(self.value),
    {
        self.value & (1u32 << 28) != 0
    }

    /// Independent-watchdog reset flag.
    pub fn iwdg1rstf(&self) -> (set: bool)
        ensures
            set == spec_iwdg1rstf(self.value),
    {
        self.value & (1u32 << 26) != 0
    }

    /// Software (system) reset flag.
    pub fn sftrstf(&self) -> (set: bool)
        ensures
            set == spec_sftrstf(self.value),
    {
        self.value & (1u32 << 24) != 0
    }

    /// Power-on reset flag.
    pub fn porrstf(&self) -> (set: bool)
        ensures
            set == spec_porrstf(self.value),
    {
        self.value & (1u32 << 23) != 0
    }

    /// External pin reset flag.
    pub fn pinrstf(&self) -> (set: bool)
        ensures
            set == spec_pinrstf(self.value),
    {
        self.value & (1u32 << 22) != 0
    }

    /// Brownout reset flag.
    pub fn borrstf(&self) -> (set: bool)
        ensures
            set == spec_borrstf(self.value),
    {
        self.value & (1u32 << 21) != 0
    }

    /// Domain-2 exits-standby flag.
    pub fn d2rstf(&self) -> (set: bool)
        ensures
            set == spec_d2rstf(self.value),
    {
        self.value & (1u32 << 20) != 0
    }

    /// Domain-1 exits-standby flag.
    pub fn d1rstf(&self) -> (set: bool)
        ensures
            set == spec_d1rstf(self.value),
    {
        self.value & (1u32 << 19) != 0
    }

    /// CPU reset flag.
    pub fn cpurstf(&self) -> (set: bool)
        ensures
            set == spec_cpurstf(self.value),
    {
        self.value & (1u32 << 17) != 0
    }
}

/// The classified explanation for the most recent processor reset.
#[derive(Clone, Copy, Debug, PartialEq, Eq, Structural)]
pub enum ResetReason {
    PowerOnReset,
    PinReset,
    BrownoutReset,
    SystemReset,
    CpuReset,
    WindowWatchdogReset,
    IndependentWatchdogReset,
    /// Both watchdog flags set without an intervening clear; an inferred,
    /// not vendor-documented, interpretation.
    GenericWatchdogReset,
    D1ExitsDStandbyMode,
    D2ExitsDStandbyMode,
    D1EntersDStandbyErroneouslyOrCpuEntersCStopErroneously,
}

/// The vendor-specific decision table over the ten flags, in the order
/// (low-power, window-wdg, indep-wdg, soft-reset, power-on, pin, brownout,
/// domain-2, domain-1, cpu).  The patterns do not overlap; every
/// combination outside the table is an error carrying the raw value.
pub open spec fn spec_classify_reset(raw: u32) -> Result<ResetReason, u32> {
    match (
        spec_lpwrrstf(raw),
        spec_wwdg1rstf(raw),
        spec_iwdg1rstf(raw),
        spec_sftrstf(raw),
        spec_porrstf(raw),
        spec_pinrstf(raw),
        spec_borrstf(raw),
        spec_d2rstf(raw),
        spec_d1rstf(raw),
        spec_cpurstf(raw),
    ) {
        (false, false, false, false, true, true, true, true, true, true) => Ok(
            ResetReason::PowerOnReset,
        ),
        (false, false, false, false, false, true, false, false, false, true) => Ok(
            ResetReason::PinReset,
        ),
        (false, false, false, false, false, true, true, false, false, true) => Ok(
            ResetReason::BrownoutReset,
        ),
        (false, false, false, true, false, true, false, false, false, true) => Ok(
            ResetReason::SystemReset,
        ),
        (false, false, false, false, false, false, false, false, false, true) => Ok(
            ResetReason::CpuReset,
        ),
        (false, true, false, false, false, false, false, false, false, false) => Ok(
            ResetReason::WindowWatchdogReset,
        ),
        (false, true, false, false, false, true, false, false, false, true) => Ok(
            ResetReason::WindowWatchdogReset,
        ),
        (false, false, true, false, false, true, false, false, false, true) => Ok(
            ResetReason::IndependentWatchdogReset,
        ),
        (false, true, true, false, false, true, false, false, false, true) => Ok(
            ResetReason::GenericWatchdogReset,
        ),
        (false, false, false, false, false, false, false, false, true, false) => Ok(
            ResetReason::D1ExitsDStandbyMode,
        ),
        (false, false, false, false, false, false, false, true, false, false) => Ok(
            ResetReason::D2ExitsDStandbyMode,
        ),
        (true, false, false, false, false, true, false, false, false, true) => Ok(
            ResetReason::D1EntersDStandbyErroneouslyOrCpuEntersCStopErroneously,
        ),
        _ => Err(raw),
    }
}

/// Classifies a raw reset-cause snapshot.  Stateless; never panics: an
/// unmatched flag combination comes back unchanged inside the error.
pub fn classify_reset(raw: u32) -> (reason: Result<ResetReason, u32>)
    ensures
        reason == spec_classify_reset(raw),
{
    let reset_flag = ResetFlag::new(raw);
    match (
        reset_flag.lpwrrstf(),
        reset_flag.wwdg1rstf(),
        reset_flag.iwdg1rstf(),
        reset_flag.sftrstf(),
        reset_flag.porrstf(),
        reset_flag.pinrstf(),
        reset_flag.borrstf(),
        reset_flag.d2rstf(),
        reset_flag.d1rstf(),
        reset_flag.cpurstf(),
    ) {
        (false, false, false, false, true, true, true, true, true, true) => Ok(
            ResetReason::PowerOnReset,
        ),
        (false, false, false, false, false, true, false, false, false, true) => Ok(
            ResetReason::PinReset,
        ),
        (false, false, false, false, false, true, true, false, false, true) => Ok(
            ResetReason::BrownoutReset,
        ),
        (false, false, false, true, false, true, false, false, false, true) => Ok(
            ResetReason::SystemReset,
        ),
        (false, false, false, false, false, false, false, false, false, true) => Ok(
            ResetReason::CpuReset,
        ),
        (false, true, false, false, false, false, false, false, false, false)
        | (false, true, false, false, false, true, false, false, false, true) => Ok(
            ResetReason::WindowWatchdogReset,
        ),
        (false, false, true, false, false, true, false, false, false, true) => Ok(
            ResetReason::IndependentWatchdogReset,
        ),
        (false, true, true, false, false, true, false, false, false, true) => Ok(
            ResetReason::GenericWatchdogReset,
        ),
        (false, false, false, false, false, false, false, false, true, false) => Ok(
            ResetReason::D1ExitsDStandbyMode,
        ),
        (false, false, false, false, false, false, false, true, false, false) => Ok(
            ResetReason::D2ExitsDStandbyMode,
        ),
        (true, false, false, false, false, true, false, false, false, true) => Ok(
            ResetReason::D1EntersDStandbyErroneouslyOrCpuEntersCStopErroneously,
        ),
        _ => Err(raw),
    }
}

} // verus!
