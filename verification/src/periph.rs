//! The sampling core: the state the two interrupt handlers work on, and
//! the handlers' decisions.
//!
//! The hardware readings — the capacitor-voltage sample, the temperature
//! register and the captured pulse count — reach the core as plain
//! values; the register access around them stays with the platform
//! driver. Two handlers drive the core once per cycle:
//! - the conversion-complete handler (`adc_callback`) stores the
//!   capacitor-voltage sample, reads the temperature best-effort, and
//!   applies the power-gating policy: the probe oscillator is enabled
//!   for the counting window only when the sample exceeds the
//!   configured minimum threshold;
//! - the capture handler (`timer_callback`) disables the probe,
//!   assembles the cycle's record under the next sequence number, and —
//!   only when the capacitor voltage is above the threshold — offers
//!   the record to the telemetry channel without ever waiting.

use vstd::prelude::*;
use crate::channel::{spec_push, TelemetryChannel};
use crate::measurement::Measurement;

verus! {

/// The measurement state shared by the interrupt handlers: the latest
/// readings, the cached temperature, the probe's power gate and the
/// per-cycle sequence counter.
#[derive(Copy, Clone, Debug, PartialEq, Eq, Structural)]
pub struct Peripherals {
    /// Fixed per-device identifier stamped into every record.
    pub id: u16,
    /// Minimum viable capacitor voltage: at or below it the probe stays
    /// off and no record is offered to the channel.
    pub threshold: i16,
    /// Sequence number of the last assembled record; the next record
    /// takes the following value, wrapping from 65535 to 0.
    pub sequence: u16,
    /// Cached temperature: the latest reading that completed in time.
    pub temp_buffer: i32,
    /// Latest capacitor-voltage sample.
    pub adc_buffer: i16,
    /// Pulse count captured at the end of the latest counting window.
    pub counter_capture: u32,
    /// Whether the probe oscillator's power-enable line is high.
    pub probe_enabled: bool,
}

/// How the capture handler's record fared at the channel.
#[derive(Copy, Clone, Debug, PartialEq, Eq, Structural)]
pub enum SendOutcome {
    /// The record was placed into the empty slot.
    Sent,
    /// The slot still held the previous record: the new one was
    /// discarded, a warning is due, and the handler did not wait.
    ChannelFull,
    /// The capacitor voltage was at or below the threshold: no record
    /// was offered at all, conserving a doomed transmission attempt.
    BelowThreshold,
}

/// The sequence counter's successor: up by one, wrapping silently from
/// 65535 to 0.
pub open spec fn wrap_inc(s: u16) -> u16 {
    if s == 0xFFFF {
        0
    } else {
        (s + 1) as u16
    }
}

/// The core after the conversion-complete handler ran with sample `v`
/// and best-effort temperature `t`: the sample is stored, a completed
/// temperature reading replaces the cache (a missing one leaves the
/// cached value standing), and the probe is enabled when the sample
/// exceeds the threshold.
pub open spec fn spec_adc_callback(p: Peripherals, v: i16, t: Option<i32>) -> Peripherals {
    Peripherals {
        id: p.id,
        threshold: p.threshold,
        sequence: p.sequence,
        temp_buffer: match t {
            Some(fresh) => fresh,
            None => p.temp_buffer,
        },
        adc_buffer: v,
        counter_capture: p.counter_capture,
        probe_enabled: if v > p.threshold { true } else { p.probe_enabled },
    }
}

/// The core after the capture handler ran with captured pulse count
/// `captured`: the count is recorded, the probe is unconditionally
/// disabled, and the sequence counter advances by exactly one whatever
/// becomes of the record.
pub open spec fn spec_cycle_state(p: Peripherals, captured: u32) -> Peripherals {
    Peripherals {
        id: p.id,
        threshold: p.threshold,
        sequence: wrap_inc(p.sequence),
        temp_buffer: p.temp_buffer,
        adc_buffer: p.adc_buffer,
        counter_capture: captured,
        probe_enabled: false,
    }
}

/// The record a core state assembles: the captured count, the latest
/// voltage sample, the cached-or-fresh temperature, under the next
/// sequence number.
pub open spec fn spec_assembled(p: Peripherals) -> Measurement {
    Measurement {
        id: p.id,
        moisture_frequency: p.counter_capture,
        temperature: p.temp_buffer,
        capacitor_voltage: p.adc_buffer,
        sequence: wrap_inc(p.sequence),
    }
}

impl Peripherals {
    /// Creates the core at boot: no reading has arrived yet, the probe
    /// is off, and the sequence counter stands just before zero so the
    /// first record is numbered 0.
    pub fn new(id: u16, threshold: i16) -> (r: Peripherals)
        ensures
            r == (Peripherals {
                id,
                threshold,
                sequence: 0xFFFF,
                temp_buffer: i32::MIN,
                adc_buffer: 0,
                counter_capture: 0,
                probe_enabled: false,
            }),
    {
        Peripherals {
            id,
            threshold,
            sequence: 0xFFFF,
            temp_buffer: i32::MIN,
            adc_buffer: 0,
            counter_capture: 0,
            probe_enabled: false,
        }
    }

    /// The latest capacitor-voltage sample.
    pub fn get_adc_measurement(&self) -> (r: i16)
        ensures
            r == self.adc_buffer,
    {
        self.adc_buffer
    }

    /// Best-effort temperature read. A completed conversion (`Some`)
    /// replaces the cache; a conversion that has not finished yet
    /// (`None`) is a transient miss: the previous cycle's cached value
    /// stays, the cycle goes on, and the caller may log the miss.
    pub fn read_temp(&mut self, reading: Option<i32>) -> (r: Result<(), ()>)
        ensures
            reading matches Some(t) ==> r == Ok::<(), ()>(()) && *final(self) == (Peripherals {
                temp_buffer: t,
                ..*old(self)
            }),
            reading is None ==> r == Err::<(), ()>(()) && *final(self) == *old(self),
    {
        match reading {
            Some(t) => {
                self.temp_buffer = t;
                Ok(())
            },
            None => Err(()),
        }
    }

    /// Raises the probe oscillator's power-enable line.
    pub fn enable_probe(&mut self)
        ensures
            *final(self) == (Peripherals { probe_enabled: true, ..*old(self) }),
    {
        self.probe_enabled = true;
    }

    /// Lowers the probe oscillator's power-enable line.
    pub fn disable_probe(&mut self)
        ensures
            *final(self) == (Peripherals { probe_enabled: false, ..*old(self) }),
    {
        self.probe_enabled = false;
    }

    /// The conversion-complete handler: stores the capacitor-voltage
    /// sample, reads the temperature best-effort, and enables the probe
    /// for the counting window about to start if and only if the core
    /// left the last capture with the probe off — as it always does —
    /// and the sample exceeds the threshold. Returns whether the
    /// temperature reading was fresh.
    pub fn adc_callback(&mut self, adc_value: i16, temp_reading: Option<i32>) -> (fresh: bool)
        ensures
            *final(self) == spec_adc_callback(*old(self), adc_value, temp_reading),
            fresh == (temp_reading is Some),
    {
        let fresh = match self.read_temp(temp_reading) {
            Ok(()) => true,
            Err(()) => false,
        };
        self.adc_buffer = adc_value;
        if adc_value > self.threshold {
            self.enable_probe();
        }
        fresh
    }

    /// Assembles the cycle's record and advances the sequence counter by
    /// exactly one, wrapping at 65536. The counter tracks cycles, not
    /// transmissions: it advances whether or not the record is ever sent.
    pub fn get_measurement(&mut self) -> (m: Measurement)
        ensures
            m == spec_assembled(*old(self)),
            *final(self) == (Peripherals { sequence: wrap_inc(old(self).sequence), ..*old(self) }),
    {
        if self.sequence == 0xFFFF {
            self.sequence = 0;
        } else {
            self.sequence = self.sequence + 1;
        }
        Measurement {
            id: self.id,
            moisture_frequency: self.counter_capture,
            temperature: self.temp_buffer,
            capacitor_voltage: self.adc_buffer,
            sequence: self.sequence,
        }
    }

    /// The capture handler, run once per completed cycle: records the
    /// captured pulse count, disables the probe, assembles the record,
    /// and offers it to the channel — without ever waiting — unless the
    /// capacitor voltage is at or below the threshold, in which case no
    /// record is offered for this cycle. A full slot leaves the previous
    /// record intact and discards the new one.
    pub fn timer_callback(&mut self, captured_count: u32, ch: &mut TelemetryChannel) -> (r:
        SendOutcome)
        ensures
            *final(self) == spec_cycle_state(*old(self), captured_count),
            old(self).adc_buffer > old(self).threshold ==> final(ch).pending() == spec_push(
                old(ch).pending(),
                spec_assembled(spec_adc_record_base(*old(self), captured_count)),
            ),
            old(self).adc_buffer > old(self).threshold && old(ch).pending() is None ==> r
                == SendOutcome::Sent,
            old(self).adc_buffer > old(self).threshold && old(ch).pending() is Some ==> r
                == SendOutcome::ChannelFull,
            old(self).adc_buffer <= old(self).threshold ==> r == SendOutcome::BelowThreshold
                && final(ch).pending() == old(ch).pending(),
    {
        self.counter_capture = captured_count;
        self.disable_probe();
        let m = self.get_measurement();
        if m.capacitor_voltage > self.threshold {
            match ch.try_send(m) {
                Ok(()) => SendOutcome::Sent,
                Err(_) => SendOutcome::ChannelFull,
            }
        } else {
            SendOutcome::BelowThreshold
        }
    }
}

/// The core as the capture handler sees it the moment it assembles: the
/// captured count already recorded, nothing else moved yet.
pub open spec fn spec_adc_record_base(p: Peripherals, captured: u32) -> Peripherals {
    Peripherals { counter_capture: captured, ..p }
}

/// Law: power gating across one cycle boundary. The capture handler
/// leaves the probe off; the next conversion-complete handler then
/// enables it if and only if the new capacitor-voltage sample exceeds
/// the threshold — whatever state the cycle started from.
pub proof fn lemma_power_gating(p: Peripherals, captured: u32, v: i16, t: Option<i32>)
    ensures
        spec_adc_callback(spec_cycle_state(p, captured), v, t).probe_enabled <==> v > p.threshold,
{
}

/// The core after a run of consecutive completed cycles, one capture
/// per entry of `counts` — exactly the state the capture handler's
/// contract steps through, cycle by cycle.
pub open spec fn spec_run_cycles(p: Peripherals, counts: Seq<u32>) -> Peripherals
    decreases counts.len(),
{
    if counts.len() == 0 {
        p
    } else {
        spec_cycle_state(spec_run_cycles(p, counts.drop_last()), counts.last())
    }
}

/// Wrapping increment agrees with arithmetic modulo 65536.
proof fn lemma_wrap_inc_mod(x: int)
    requires
        x >= 0,
    ensures
        wrap_inc((x % 0x10000) as u16) == ((x + 1) % 0x10000) as u16,
{
    vstd::arithmetic::div_mod::lemma_add_mod_noop(x, 1, 0x10000);
    assert((x % 0x10000 + 1int % 0x10000) % 0x10000 == (x + 1) % 0x10000);
    assert(1int % 0x10000 == 1);
    if x % 0x10000 == 0xFFFF {
        assert((0xFFFF + 1) % 0x10000 == 0);
    } else {
        assert((x % 0x10000 + 1) % 0x10000 == x % 0x10000 + 1);
    }
}

/// Law: sequence monotonicity. Across any run of consecutive completed
/// cycles the sequence counter advances by exactly one per cycle,
/// modulo 65536 — whatever was captured and regardless of whether any
/// record was transmitted, since the capture handler advances it on
/// every cycle.
pub proof fn lemma_sequence_monotonic(p: Peripherals, counts: Seq<u32>)
    ensures
        spec_run_cycles(p, counts).sequence == ((p.sequence + counts.len()) % 0x10000) as u16,
    decreases counts.len(),
{
    if counts.len() == 0 {
        assert((p.sequence + 0) % 0x10000 == p.sequence);
    } else {
        lemma_sequence_monotonic(p, counts.drop_last());
        lemma_wrap_inc_mod(p.sequence + counts.len() - 1);
    }
}

} // verus!
