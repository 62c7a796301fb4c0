use soil_sensor_core::channel::TelemetryChannel;
use soil_sensor_core::measurement::Measurement;
use soil_sensor_core::radio::{
    advertise_data, radio_step, scan_data, PublisherState, RadioAction, RadioEvent,
};

fn record(sequence: u16) -> Measurement {
    Measurement {
        id: 0x0123,
        moisture_frequency: 6666,
        temperature: 100,
        capacitor_voltage: 4500,
        sequence,
    }
}

#[test]
fn session_runs_and_terminates_on_disconnect() {
    // End to end: the channel holds a record, advertising succeeds, the
    // protocol-service duty completes (the peer disconnects); the
    // session ends, the publish duty is cancelled, and control returns
    // to the wait step without loss of subsequent records.
    let mut ch = TelemetryChannel::new();
    let m1 = record(0);
    assert_eq!(ch.try_send(m1), Ok(()));

    let taken = ch.take().unwrap();
    let (s, a) = radio_step(PublisherState::Idle, RadioEvent::RecordAvailable(taken));
    assert_eq!(s, PublisherState::Advertising { pending: m1 });
    assert_eq!(a, RadioAction::StartAdvertising(m1));

    let (s, a) = radio_step(s, RadioEvent::PeerConnected);
    assert_eq!(s, PublisherState::Connected);
    assert_eq!(a, RadioAction::Notify(m1));

    // A later cycle pushes the next record while the session runs.
    let m2 = record(1);
    assert_eq!(ch.try_send(m2), Ok(()));

    let (s, a) = radio_step(s, RadioEvent::PeerDisconnected);
    assert_eq!(s, PublisherState::Idle);
    assert_eq!(a, RadioAction::AwaitRecord);

    // The subsequent record is still there and starts the next attempt.
    let taken = ch.take().unwrap();
    assert_eq!(taken, m2);
    let (s, a) = radio_step(s, RadioEvent::RecordAvailable(taken));
    assert_eq!(s, PublisherState::Advertising { pending: m2 });
    assert_eq!(a, RadioAction::StartAdvertising(m2));
}

#[test]
fn advertise_timeout_discards_and_returns_to_wait() {
    // No peer connects within the timeout: the pending record is
    // discarded and the loop returns to waiting without error.
    let m = record(7);
    let (s, a) = radio_step(PublisherState::Idle, RadioEvent::RecordAvailable(m));
    let (s, a2) = radio_step(s, RadioEvent::AdvertiseTimeout);
    assert_eq!(a, RadioAction::StartAdvertising(m));
    assert_eq!(s, PublisherState::Idle);
    assert_eq!(a2, RadioAction::AwaitRecord);
}

#[test]
fn records_stream_within_session() {
    let m2 = record(2);
    let (s, a) = radio_step(PublisherState::Connected, RadioEvent::RecordAvailable(m2));
    assert_eq!(s, PublisherState::Connected);
    assert_eq!(a, RadioAction::Notify(m2));
}

#[test]
fn notify_failure_keeps_session() {
    let (s, a) = radio_step(PublisherState::Connected, RadioEvent::NotifyFailed);
    assert_eq!(s, PublisherState::Connected);
    assert_eq!(a, RadioAction::ContinueSession);
}

#[test]
fn publish_duty_end_is_reported() {
    let (s, a) = radio_step(PublisherState::Connected, RadioEvent::PublishDutyEnded);
    assert_eq!(s, PublisherState::Idle);
    assert_eq!(a, RadioAction::ReportAbnormalEnd);
}

#[test]
fn channel_closed_is_fatal() {
    let (s, a) = radio_step(PublisherState::Idle, RadioEvent::ChannelClosed);
    assert_eq!(s, PublisherState::Idle);
    assert_eq!(a, RadioAction::Halt);
    let (_, a) = radio_step(PublisherState::Connected, RadioEvent::ChannelClosed);
    assert_eq!(a, RadioAction::Halt);
}

#[test]
fn out_of_state_events_are_ignored() {
    let (s, a) = radio_step(PublisherState::Idle, RadioEvent::PeerConnected);
    assert_eq!(s, PublisherState::Idle);
    assert_eq!(a, RadioAction::Ignore);
    let m = record(0);
    let (s, a) = radio_step(
        PublisherState::Advertising { pending: m },
        RadioEvent::PeerDisconnected,
    );
    assert_eq!(s, PublisherState::Advertising { pending: m });
    assert_eq!(a, RadioAction::Ignore);
}

#[test]
fn scan_data_frames_the_record() {
    let m = record(1);
    let frame = scan_data(&m, &[0xFF, 0xFF]);
    assert_eq!(frame[0], 17);
    assert_eq!(frame[1], 0xFF);
    assert_eq!(&frame[2..4], &[0xFF, 0xFF]);
    assert_eq!(&frame[4..], &m.to_bytes());
    // A listener that strips the header gets the record back.
    assert_eq!(Measurement::from_slice(&frame[4..]), Ok(m));
}

#[test]
fn advertise_data_names_the_node() {
    let frame = advertise_data(0x012F, 0x06);
    assert_eq!(&frame[0..3], &[0x02, 0x01, 0x06]);
    assert_eq!(&frame[3..7], &[0x03, 0x03, 0x09, 0x18]);
    assert_eq!(&frame[7..9], &[0x15, 0x09]);
    assert_eq!(&frame[9..], b"BLE Soil Sensor 012f");
}
