use soil_sensor_core::channel::TelemetryChannel;
use soil_sensor_core::measurement::Measurement;
use soil_sensor_core::periph::{Peripherals, SendOutcome};

#[test]
fn boot_state() {
    let p = Peripherals::new(0x0123, -10000);
    assert_eq!(p.id, 0x0123);
    assert_eq!(p.threshold, -10000);
    assert_eq!(p.sequence, 0xFFFF);
    assert_eq!(p.temp_buffer, i32::MIN);
    assert!(!p.probe_enabled);
}

#[test]
fn probe_enabled_above_threshold() {
    // Threshold 0, sample 5000: the probe is enabled for the next
    // counting window.
    let mut p = Peripherals::new(1, 0);
    p.adc_callback(5000, Some(25));
    assert!(p.probe_enabled);
    assert_eq!(p.adc_buffer, 5000);
}

#[test]
fn probe_stays_disabled_below_threshold() {
    // Threshold 0, sample -20000: the probe stays disabled.
    let mut p = Peripherals::new(1, 0);
    p.adc_callback(-20000, Some(25));
    assert!(!p.probe_enabled);
    assert_eq!(p.adc_buffer, -20000);
}

#[test]
fn probe_gate_is_exact_at_threshold() {
    // The policy is strictly greater-than: a sample equal to the
    // threshold leaves the probe off.
    let mut p = Peripherals::new(1, -10000);
    p.adc_callback(-10000, None);
    assert!(!p.probe_enabled);
    let mut q = Peripherals::new(1, -10000);
    q.adc_callback(-9999, None);
    assert!(q.probe_enabled);
}

#[test]
fn fresh_temperature_replaces_cache() {
    let mut p = Peripherals::new(1, 0);
    let fresh = p.adc_callback(100, Some(84));
    assert!(fresh);
    assert_eq!(p.temp_buffer, 84);
}

#[test]
fn missed_temperature_keeps_cache() {
    // A temperature conversion that has not finished is a transient
    // miss: the previous cycle's value is reused, the cycle goes on.
    let mut p = Peripherals::new(1, 0);
    p.adc_callback(100, Some(84));
    let fresh = p.adc_callback(200, None);
    assert!(!fresh);
    assert_eq!(p.temp_buffer, 84);
    assert_eq!(p.adc_buffer, 200);
}

#[test]
fn read_temp_reports_miss() {
    let mut p = Peripherals::new(1, 0);
    assert_eq!(p.read_temp(Some(7)), Ok(()));
    assert_eq!(p.temp_buffer, 7);
    assert_eq!(p.read_temp(None), Err(()));
    assert_eq!(p.temp_buffer, 7);
}

#[test]
fn first_record_is_numbered_zero() {
    let mut p = Peripherals::new(0x0123, 0);
    p.adc_callback(4500, Some(100));
    p.counter_capture = 6666;
    let m = p.get_measurement();
    assert_eq!(
        m,
        Measurement {
            id: 0x0123,
            moisture_frequency: 6666,
            temperature: 100,
            capacitor_voltage: 4500,
            sequence: 0,
        }
    );
}

#[test]
fn sequence_advances_every_cycle() {
    let mut p = Peripherals::new(1, 0);
    assert_eq!(p.get_measurement().sequence, 0);
    assert_eq!(p.get_measurement().sequence, 1);
    assert_eq!(p.get_measurement().sequence, 2);
}

#[test]
fn sequence_wraps_silently() {
    let mut p = Peripherals::new(1, 0);
    p.sequence = 0xFFFE;
    assert_eq!(p.get_measurement().sequence, 0xFFFF);
    assert_eq!(p.get_measurement().sequence, 0);
    assert_eq!(p.get_measurement().sequence, 1);
}

#[test]
fn sequence_advances_even_when_suppressed() {
    // The counter tracks cycles, not transmissions: a cycle whose
    // record is suppressed still advances it.
    let mut p = Peripherals::new(1, 0);
    let mut ch = TelemetryChannel::new();
    p.adc_callback(-5, None); // below threshold: nothing will be pushed
    assert_eq!(p.timer_callback(10, &mut ch), SendOutcome::BelowThreshold);
    assert_eq!(p.sequence, 0);
    p.adc_callback(50, None); // above threshold
    assert_eq!(p.timer_callback(20, &mut ch), SendOutcome::Sent);
    let sent = ch.take().unwrap();
    assert_eq!(sent.sequence, 1);
}

#[test]
fn capture_sends_record_and_sleeps_probe() {
    let mut p = Peripherals::new(0x0123, -10000);
    let mut ch = TelemetryChannel::new();
    p.adc_callback(4500, Some(100));
    assert!(p.probe_enabled);
    let outcome = p.timer_callback(6666, &mut ch);
    assert_eq!(outcome, SendOutcome::Sent);
    assert!(!p.probe_enabled);
    assert_eq!(
        ch.take(),
        Some(Measurement {
            id: 0x0123,
            moisture_frequency: 6666,
            temperature: 100,
            capacitor_voltage: 4500,
            sequence: 0,
        })
    );
}

#[test]
fn low_voltage_suppresses_record() {
    // At or below the threshold no record is offered to the channel.
    let mut p = Peripherals::new(1, -10000);
    let mut ch = TelemetryChannel::new();
    p.adc_callback(-10000, Some(0));
    assert_eq!(p.timer_callback(5, &mut ch), SendOutcome::BelowThreshold);
    assert_eq!(ch.take(), None);
}

#[test]
fn zero_count_is_valid_data() {
    // A probe that was never enabled yields a legitimate zero count,
    // distinguished only by the paired low capacitor voltage.
    let mut p = Peripherals::new(1, -10000);
    let mut ch = TelemetryChannel::new();
    p.adc_callback(-9999, Some(0));
    assert_eq!(p.timer_callback(0, &mut ch), SendOutcome::Sent);
    let m = ch.take().unwrap();
    assert_eq!(m.moisture_frequency, 0);
    assert_eq!(m.capacitor_voltage, -9999);
}

#[test]
fn backpressure_keeps_first_record() {
    // Two pushes before any drain: the channel retains the first and
    // discards the second; the consumer then observes exactly the first.
    let mut p = Peripherals::new(1, 0);
    let mut ch = TelemetryChannel::new();
    p.adc_callback(100, Some(1));
    assert_eq!(p.timer_callback(111, &mut ch), SendOutcome::Sent);
    p.adc_callback(200, Some(2));
    assert_eq!(p.timer_callback(222, &mut ch), SendOutcome::ChannelFull);
    let first = ch.take().unwrap();
    assert_eq!(first.moisture_frequency, 111);
    assert_eq!(first.capacitor_voltage, 100);
    assert_eq!(first.sequence, 0);
    assert_eq!(ch.take(), None);
}

#[test]
fn channel_try_send_and_take() {
    let mut ch = TelemetryChannel::new();
    assert_eq!(ch.take(), None);
    let m1 = Measurement {
        id: 1,
        moisture_frequency: 10,
        temperature: 20,
        capacitor_voltage: 30,
        sequence: 40,
    };
    let m2 = Measurement { sequence: 41, ..m1 };
    assert_eq!(ch.try_send(m1), Ok(()));
    assert_eq!(ch.try_send(m2), Err(m2));
    assert_eq!(ch.take(), Some(m1));
    assert_eq!(ch.try_send(m2), Ok(()));
    assert_eq!(ch.take(), Some(m2));
}
