//! The cycle timing controller: fixed-at-boot configuration of the
//! free-running low-frequency counter, and the phase state machine that
//! its compare events drive.
//!
//! One cycle runs through four phases:
//! `AwaitCycleStart -> Settling -> Counting -> CaptureReady` and back on
//! the next cycle start. The phase boundaries are hardware events at
//! fixed offsets from the cycle start: the settle offset is a quarter
//! period (the oscillator's startup transient is discarded) and the
//! capture offset one full period later. The controller holds no
//! business logic; other components react to the announced actions.

use vstd::prelude::*;

verus! {

/// Frequency, in Hz, of the low-frequency timebase that drives the cycle.
pub const LFCLK_FREQ: u32 = 32768;

/// Largest prescaler the 12-bit prescaler register can hold.
pub const MAX_PRESCALER: u32 = 0xFFF;

/// Largest offset the 24-bit compare registers can hold.
pub const MAX_COMPARE: u32 = 0xFFFFFF;

/// A fatal configuration error. There is no recovery path at runtime: a
/// corrupted timebase would silently produce wrong measurements, so the
/// caller halts instead of continuing.
#[derive(Copy, Clone, Debug, PartialEq, Eq, Structural)]
pub enum SetupError {
    /// The prescaler does not fit the 12-bit prescaler register.
    PrescalerOutOfRange,
    /// A compare offset does not fit a 24-bit compare register.
    CompareOutOfRange,
}

/// The timing constants of one cycle, all in ticks of the prescaled
/// timebase, fixed at boot by `TimerConfig::new`.
#[derive(Copy, Clone, Debug, PartialEq, Eq, Structural)]
pub struct TimerConfig {
    /// The validated prescaler of the low-frequency counter.
    pub prescaler: u32,
    /// Ticks in one second of prescaled time: `LFCLK_FREQ / (prescaler + 1)`.
    pub ticks_per_second: u32,
    /// Offset of the settle boundary from the cycle start: a quarter second.
    pub settle_offset: u32,
    /// Offset of the capture boundary: one second after the settle boundary.
    pub capture_offset: u32,
    /// Length of the whole cycle, after which the next cycle starts.
    pub cycle_ticks: u32,
}

impl TimerConfig {
    /// Validates the boot-time timing configuration and fixes the phase
    /// boundary offsets. Rejects a prescaler beyond the 12-bit register
    /// and a cycle length beyond the 24-bit compare registers; the two
    /// boundary offsets themselves always fit, since a prescaled second
    /// is at most `LFCLK_FREQ` ticks.
    pub fn new(prescaler: u32, cycle_ticks: u32) -> (r: Result<TimerConfig, SetupError>)
        ensures
            prescaler > MAX_PRESCALER ==> r == Err::<TimerConfig, SetupError>(
                SetupError::PrescalerOutOfRange,
            ),
            prescaler <= MAX_PRESCALER && cycle_ticks > MAX_COMPARE ==> r == Err::<
                TimerConfig,
                SetupError,
            >(SetupError::CompareOutOfRange),
            prescaler <= MAX_PRESCALER && cycle_ticks <= MAX_COMPARE ==> r == Ok::<
                TimerConfig,
                SetupError,
            >(TimerConfig {
                prescaler,
                ticks_per_second: LFCLK_FREQ / (prescaler + 1) as u32,
                settle_offset: (LFCLK_FREQ / (prescaler + 1) as u32) / 4 as u32,
                capture_offset: ((LFCLK_FREQ / (prescaler + 1) as u32) + (LFCLK_FREQ / (prescaler
                    + 1) as u32) / 4) as u32,
                cycle_ticks,
            }),
            r matches Ok(c) ==> c.well_formed(),
    {
        if prescaler > MAX_PRESCALER {
            return Err(SetupError::PrescalerOutOfRange);
        }
        if cycle_ticks > MAX_COMPARE {
            return Err(SetupError::CompareOutOfRange);
        }
        let ticks_per_second = LFCLK_FREQ / (prescaler + 1);
        let settle_offset = ticks_per_second / 4;
        let capture_offset = ticks_per_second + settle_offset;
        Ok(TimerConfig { prescaler, ticks_per_second, settle_offset, capture_offset, cycle_ticks })
    }

    /// Whether every fixed offset fits a 24-bit compare register and
    /// the settle boundary precedes the capture boundary. Validation is
    /// sound: every configuration `new` accepts is well formed.
    pub open spec fn well_formed(self) -> bool {
        &&& self.settle_offset <= self.capture_offset <= MAX_COMPARE
        &&& self.cycle_ticks <= MAX_COMPARE
    }
}

/// Where the cycle stands between hardware events. Owned by the timing
/// controller; no component may poll it, they react to the actions.
#[derive(Copy, Clone, Debug, PartialEq, Eq, Structural)]
pub enum CyclePhase {
    /// Between the capture boundary and the next cycle start.
    AwaitCycleStart,
    /// The probe oscillator's startup transient is running out.
    Settling,
    /// Probe pulses are being counted.
    Counting,
    /// The count is captured; the measurement for this cycle is ready.
    CaptureReady,
}

/// A hardware event at a phase boundary.
#[derive(Copy, Clone, Debug, PartialEq, Eq, Structural)]
pub enum CycleEvent {
    /// The free-running counter wrapped: a new cycle starts.
    CycleStart,
    /// The settle offset elapsed.
    SettleElapsed,
    /// The capture offset elapsed: the counting window is over.
    CountElapsed,
}

/// What the components around the controller must do at a boundary.
#[derive(Copy, Clone, Debug, PartialEq, Eq, Structural)]
pub enum CycleAction {
    /// Start the capacitor-voltage conversion and, opportunistically, a
    /// temperature conversion.
    BeginSampling,
    /// Clear the pulse counter: the startup transient is discarded.
    ClearCounter,
    /// Capture the pulse counter, raise measurement-ready, and disable
    /// the probe at once to save power.
    CaptureAndSleep,
    /// The event does not belong to the current phase: nothing happens.
    Ignore,
}

/// The phase the controller moves to and the action it announces when
/// `event` arrives in `phase`. An event outside its phase is ignored.
pub open spec fn spec_phase_step(phase: CyclePhase, event: CycleEvent) -> (CyclePhase, CycleAction) {
    match (phase, event) {
        (CyclePhase::AwaitCycleStart, CycleEvent::CycleStart) => (
            CyclePhase::Settling,
            CycleAction::BeginSampling,
        ),
        (CyclePhase::CaptureReady, CycleEvent::CycleStart) => (
            CyclePhase::Settling,
            CycleAction::BeginSampling,
        ),
        (CyclePhase::Settling, CycleEvent::SettleElapsed) => (
            CyclePhase::Counting,
            CycleAction::ClearCounter,
        ),
        (CyclePhase::Counting, CycleEvent::CountElapsed) => (
            CyclePhase::CaptureReady,
            CycleAction::CaptureAndSleep,
        ),
        _ => (phase, CycleAction::Ignore),
    }
}

/// Advances the phase state machine by one hardware event.
pub fn phase_step(phase: CyclePhase, event: CycleEvent) -> (r: (CyclePhase, CycleAction))
    ensures
        r == spec_phase_step(phase, event),
{
    match (phase, event) {
        (CyclePhase::AwaitCycleStart, CycleEvent::CycleStart) => (
            CyclePhase::Settling,
            CycleAction::BeginSampling,
        ),
        (CyclePhase::CaptureReady, CycleEvent::CycleStart) => (
            CyclePhase::Settling,
            CycleAction::BeginSampling,
        ),
        (CyclePhase::Settling, CycleEvent::SettleElapsed) => (
            CyclePhase::Counting,
            CycleAction::ClearCounter,
        ),
        (CyclePhase::Counting, CycleEvent::CountElapsed) => (
            CyclePhase::CaptureReady,
            CycleAction::CaptureAndSleep,
        ),
        (p, _) => (p, CycleAction::Ignore),
    }
}

/// Law: one full cycle. From either resting phase, the three boundary
/// events in hardware order run the phases `Settling`, `Counting`,
/// `CaptureReady` and announce sampling, counter clearing and capture,
/// in that order — so every completed cycle raises exactly one
/// measurement-ready action.
pub proof fn lemma_cycle_progression(start: CyclePhase)
    requires
        start == CyclePhase::AwaitCycleStart || start == CyclePhase::CaptureReady,
    ensures
        ({
            let (p1, a1) = spec_phase_step(start, CycleEvent::CycleStart);
            let (p2, a2) = spec_phase_step(p1, CycleEvent::SettleElapsed);
            let (p3, a3) = spec_phase_step(p2, CycleEvent::CountElapsed);
            &&& p1 == CyclePhase::Settling && a1 == CycleAction::BeginSampling
            &&& p2 == CyclePhase::Counting && a2 == CycleAction::ClearCounter
            &&& p3 == CyclePhase::CaptureReady && a3 == CycleAction::CaptureAndSleep
        }),
{
}

} // verus!
