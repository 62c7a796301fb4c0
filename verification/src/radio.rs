//! The radio publisher: the session state machine of the asynchronous
//! publishing task, and the advertising frames it broadcasts.
//!
//! The task runs indefinitely: it waits for a record, advertises
//! presence for a bounded timeout, and — once a peer connects — streams
//! records until the peer disconnects. The decisions live here as a
//! transition function from state and event to next state and action;
//! the platform radio driver performs the actions and hands back the
//! events.

use vstd::prelude::*;
use crate::measurement::{spec_serialized, Measurement};
use crate::node_id::spec_id_digits;

verus! {

/// Where the publisher stands between suspension points.
#[derive(Copy, Clone, Debug, PartialEq, Eq, Structural)]
pub enum PublisherState {
    /// Waiting for a record; the task's only indefinite suspension.
    Idle,
    /// Broadcasting presence for a bounded timeout, holding the record
    /// that triggered the attempt.
    Advertising { pending: Measurement },
    /// A peer is connected; the publish duty and the protocol-service
    /// duty run concurrently until either completes.
    Connected,
}

/// What the radio driver or the channel reports to the publisher.
#[derive(Copy, Clone, Debug, PartialEq, Eq, Structural)]
pub enum RadioEvent {
    /// A record became available in the telemetry channel.
    RecordAvailable(Measurement),
    /// A peer connected during the advertising window.
    PeerConnected,
    /// No peer connected before the advertising timeout: normal flow
    /// control, not an error.
    AdvertiseTimeout,
    /// The protocol-service duty completed: the peer disconnected. The
    /// expected, non-error end of a session.
    PeerDisconnected,
    /// One notify failed (for example, no subscriber yet): logged, the
    /// session continues.
    NotifyFailed,
    /// The publish duty completed: a defensive, expected-unreachable
    /// condition.
    PublishDutyEnded,
    /// The telemetry channel's producer side is gone: an unrecoverable
    /// invariant violation, since the producer lives for the process
    /// lifetime.
    ChannelClosed,
}

/// What the task must do next.
#[derive(Copy, Clone, Debug, PartialEq, Eq, Structural)]
pub enum RadioAction {
    /// Suspend until the channel holds a record.
    AwaitRecord,
    /// Broadcast presence for the bounded timeout, carrying the record.
    StartAdvertising(Measurement),
    /// Deliver the record to the connected peer.
    Notify(Measurement),
    /// Keep the session running.
    ContinueSession,
    /// Log at high severity: the publish duty ended, which should never
    /// happen; the session is over, wait for the next record.
    ReportAbnormalEnd,
    /// Treat as fatal: the channel can never fill again.
    Halt,
    /// The event does not belong to the current state: nothing happens.
    Ignore,
}

/// The publisher's next state and action when `event` arrives in
/// `state`. An advertise timeout discards the pending record and no
/// retry follows, bounding the power spent seeking an absent listener;
/// a disconnect ends the session and cancels the publish duty by never
/// notifying again; a notify failure leaves the session running.
pub open spec fn spec_radio_step(state: PublisherState, event: RadioEvent) -> (
    PublisherState,
    RadioAction,
) {
    match (state, event) {
        (PublisherState::Idle, RadioEvent::RecordAvailable(m)) => (
            PublisherState::Advertising { pending: m },
            RadioAction::StartAdvertising(m),
        ),
        (PublisherState::Advertising { pending }, RadioEvent::PeerConnected) => (
            PublisherState::Connected,
            RadioAction::Notify(pending),
        ),
        (PublisherState::Advertising { .. }, RadioEvent::AdvertiseTimeout) => (
            PublisherState::Idle,
            RadioAction::AwaitRecord,
        ),
        (PublisherState::Connected, RadioEvent::RecordAvailable(m)) => (
            PublisherState::Connected,
            RadioAction::Notify(m),
        ),
        (PublisherState::Connected, RadioEvent::NotifyFailed) => (
            PublisherState::Connected,
            RadioAction::ContinueSession,
        ),
        (PublisherState::Connected, RadioEvent::PeerDisconnected) => (
            PublisherState::Idle,
            RadioAction::AwaitRecord,
        ),
        (PublisherState::Connected, RadioEvent::PublishDutyEnded) => (
            PublisherState::Idle,
            RadioAction::ReportAbnormalEnd,
        ),
        (s, RadioEvent::ChannelClosed) => (s, RadioAction::Halt),
        (s, _) => (s, RadioAction::Ignore),
    }
}

/// Advances the publisher by one event.
pub fn radio_step(state: PublisherState, event: RadioEvent) -> (r: (PublisherState, RadioAction))
    ensures
        r == spec_radio_step(state, event),
{
    match (state, event) {
        (PublisherState::Idle, RadioEvent::RecordAvailable(m)) => (
            PublisherState::Advertising { pending: m },
            RadioAction::StartAdvertising(m),
        ),
        (PublisherState::Advertising { pending }, RadioEvent::PeerConnected) => (
            PublisherState::Connected,
            RadioAction::Notify(pending),
        ),
        (PublisherState::Advertising { .. }, RadioEvent::AdvertiseTimeout) => (
            PublisherState::Idle,
            RadioAction::AwaitRecord,
        ),
        (PublisherState::Connected, RadioEvent::RecordAvailable(m)) => (
            PublisherState::Connected,
            RadioAction::Notify(m),
        ),
        (PublisherState::Connected, RadioEvent::NotifyFailed) => (
            PublisherState::Connected,
            RadioAction::ContinueSession,
        ),
        (PublisherState::Connected, RadioEvent::PeerDisconnected) => (
            PublisherState::Idle,
            RadioAction::AwaitRecord,
        ),
        (PublisherState::Connected, RadioEvent::PublishDutyEnded) => (
            PublisherState::Idle,
            RadioAction::ReportAbnormalEnd,
        ),
        (s, RadioEvent::ChannelClosed) => (s, RadioAction::Halt),
        (s, _) => (s, RadioAction::Ignore),
    }
}

/// Law: session termination. When the protocol-service duty completes —
/// the peer disconnected — the session ends at once: the publisher
/// returns to the wait step and never notifies again in that session
/// (the publish duty is cancelled), and the next available record is
/// taken up for a fresh advertising attempt, so no subsequent record is
/// lost to the ended session.
pub proof fn lemma_session_termination(next_record: Measurement)
    ensures
        spec_radio_step(PublisherState::Connected, RadioEvent::PeerDisconnected) == (
            PublisherState::Idle,
            RadioAction::AwaitRecord,
        ),
        spec_radio_step(PublisherState::Idle, RadioEvent::RecordAvailable(next_record)) == (
            PublisherState::Advertising { pending: next_record },
            RadioAction::StartAdvertising(next_record),
        ),
{
}

/// Law: advertise timeout. When no peer connects within the configured
/// timeout, the pending record — whichever it was — is discarded, no
/// error propagates, and the publisher simply returns to waiting; there
/// is no retry.
pub proof fn lemma_advertise_timeout_discards(pending: Measurement)
    ensures
        spec_radio_step(
            PublisherState::Advertising { pending },
            RadioEvent::AdvertiseTimeout,
        ) == (PublisherState::Idle, RadioAction::AwaitRecord),
{
}

/// The scan-response frame that carries one record as manufacturer
/// data: a length byte (17: one type byte, two company-identifier
/// bytes, fourteen record bytes), the manufacturer-specific-data type
/// byte, the company identifier, then the record's wire form.
pub open spec fn spec_scan_data(m: Measurement, c0: u8, c1: u8) -> Seq<u8> {
    seq![17u8, 0xFFu8, c0, c1] + spec_serialized(m)
}

/// Builds the scan-response frame for one record under the given
/// two-byte company identifier.
pub fn scan_data(m: &Measurement, company_id: &[u8; 2]) -> (r: [u8; 18])
    ensures
        r@ == spec_scan_data(*m, company_id@[0], company_id@[1]),
{
    let b = m.to_bytes();
    let r: [u8; 18] = [
        17,
        0xFF,
        company_id[0],
        company_id[1],
        b[0],
        b[1],
        b[2],
        b[3],
        b[4],
        b[5],
        b[6],
        b[7],
        b[8],
        b[9],
        b[10],
        b[11],
        b[12],
        b[13],
    ];
    proof {
        assert(r@ =~= spec_scan_data(*m, company_id@[0], company_id@[1]));
    }
    r
}

/// Law: the scan-response frame carries the record byte-exactly — the
/// fourteen bytes after the four-byte header are the record's wire
/// form, so a listener that strips the header decodes the record.
pub proof fn lemma_scan_data_carries_record(m: Measurement, c0: u8, c1: u8)
    ensures
        spec_scan_data(m, c0, c1).len() == 18,
        spec_scan_data(m, c0, c1).subrange(4, 18) == spec_serialized(m),
{
    assert(spec_scan_data(m, c0, c1).subrange(4, 18) =~= spec_serialized(m));
}

/// The advertising-data frame: the flags structure, the 16-bit service
/// class list, then the complete local name `BLE Soil Sensor ` followed
/// by the node's four lowercase hexadecimal identifier digits.
pub open spec fn spec_advertise_data(id: u16, flags: u8) -> Seq<u8> {
    seq![
        2u8, 1u8, flags,
        3u8, 3u8, 9u8, 0x18u8,
        21u8, 9u8,
        66u8, 76u8, 69u8, 32u8, 83u8, 111u8, 105u8, 108u8, 32u8,
        83u8, 101u8, 110u8, 115u8, 111u8, 114u8, 32u8,
    ] + spec_id_digits(id)
}

/// Builds the advertising-data frame that names the node, for the given
/// advertising flags byte.
pub fn advertise_data(id: u16, flags: u8) -> (r: [u8; 29])
    ensures
        r@ == spec_advertise_data(id, flags),
{
    let digits = crate::node_id::id_to_digits(id);
    let r: [u8; 29] = [
        2,
        1,
        flags,
        3,
        3,
        9,
        0x18,
        21,
        9,
        66,
        76,
        69,
        32,
        83,
        111,
        105,
        108,
        32,
        83,
        101,
        110,
        115,
        111,
        114,
        32,
        digits[0],
        digits[1],
        digits[2],
        digits[3],
    ];
    proof {
        assert(r@ =~= spec_advertise_data(id, flags));
    }
    r
}

} // verus!
