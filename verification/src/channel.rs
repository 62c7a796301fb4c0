//! The telemetry channel: a single-slot, non-blocking handoff from
//! interrupt context to task context.
//!
//! The producer never waits: when the slot is occupied, the new record
//! is discarded and the old one is left intact, so the interrupt domain
//! stays responsive whatever the consumer does. The consumer is the only
//! side that clears the slot, by taking the value.

use vstd::prelude::*;
use crate::measurement::Measurement;

verus! {

/// The single-slot channel between the measurement assembler and the
/// radio publisher. Holds zero or one pending record.
pub struct TelemetryChannel {
    slot: Option<Measurement>,
}

/// The slot after a producer push: filled with the new record when it
/// was empty, unchanged — the new record discarded — when it was not.
pub open spec fn spec_push(slot: Option<Measurement>, m: Measurement) -> Option<Measurement> {
    if slot is None {
        Some(m)
    } else {
        slot
    }
}

impl TelemetryChannel {
    /// The record pending in the slot, if any.
    pub closed spec fn pending(self) -> Option<Measurement> {
        self.slot
    }

    /// Creates the channel with an empty slot.
    pub fn new() -> (r: TelemetryChannel)
        ensures
            r.pending() is None,
    {
        TelemetryChannel { slot: None }
    }

    /// The producer side: pushes a record without ever waiting. When the
    /// slot still holds the previous record, the new one is rejected and
    /// handed back so the caller can report the drop; the old record is
    /// left intact either way.
    pub fn try_send(&mut self, m: Measurement) -> (r: Result<(), Measurement>)
        ensures
            final(self).pending() == spec_push(old(self).pending(), m),
            old(self).pending() is None ==> r == Ok::<(), Measurement>(()),
            old(self).pending() is Some ==> r == Err::<(), Measurement>(m),
    {
        match self.slot {
            None => {
                self.slot = Some(m);
                Ok(())
            },
            Some(_) => Err(m),
        }
    }

    /// The consumer side: takes the pending record, leaving the slot
    /// empty. Only this side ever clears the slot.
    pub fn take(&mut self) -> (r: Option<Measurement>)
        ensures
            r == old(self).pending(),
            final(self).pending() is None,
    {
        let r = self.slot;
        self.slot = None;
        r
    }
}

/// Law: backpressure keeps the first record. With two pushes before any
/// drain, the slot retains the first record and discards the second, and
/// the consumer then observes exactly the first.
pub proof fn lemma_backpressure_keeps_first(m1: Measurement, m2: Measurement)
    ensures
        spec_push(spec_push(None::<Measurement>, m1), m2) == Some(m1),
{
}

} // verus!
