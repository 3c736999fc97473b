use led_effects::Error;
use led_effects::LEDEffect;
use led_effects::PwmPin;
use led_effects::RecordingDelay;
use led_effects::RecordingPin;

#[test]
fn test_new_led_effect() {
    let pin = RecordingPin::new(255);
    let led = LEDEffect::new(pin, RecordingDelay::new(), 5, 255);
    assert!(led.is_ok());
}

#[test]
fn test_invalid_parameters() {
    let pin = RecordingPin::new(255);
    let led = LEDEffect::new(pin, RecordingDelay::new(), 255, 5);
    assert!(matches!(led, Err(Error::InvalidParameter)));
}

#[test]
fn construct_computes_truncated_midpoint() {
    let led = LEDEffect::new(RecordingPin::new(255), RecordingDelay::new(), 5, 255).unwrap();
    assert_eq!(led.calibration(), (5, 130, 255));

    let led = LEDEffect::new(RecordingPin::new(255), RecordingDelay::new(), 0, 255).unwrap();
    assert_eq!(led.calibration(), (0, 127, 255));
}

#[test]
fn construct_enables_output_and_writes_nothing() {
    let led = LEDEffect::new(RecordingPin::new(255), RecordingDelay::new(), 5, 255).unwrap();
    let pin = led.destroy();
    assert!(pin.is_enabled());
    assert!(pin.written().is_empty());
}

#[test]
fn failed_construction_issues_no_enable_call() {
    let r = LEDEffect::try_new(RecordingPin::new(255), RecordingDelay::new(), 255, 5);
    match r {
        Ok(_) => panic!("equal or inverted bounds must be rejected"),
        Err((pin, _delay, e)) => {
            assert!(matches!(e, Error::InvalidParameter));
            assert!(!pin.is_enabled());
            assert!(pin.written().is_empty());
        }
    }

    let r = LEDEffect::try_new(RecordingPin::new(255), RecordingDelay::new(), 7, 7);
    assert!(r.is_err());
}

#[test]
fn breath_writes_full_ramp_and_final_zero() {
    let mut led = LEDEffect::new(RecordingPin::new(255), RecordingDelay::new(), 5, 8).unwrap();
    assert!(led.breath(600).is_ok());
    let (pin, delay) = led.into_parts();
    // Rise 5..=7, fall 8..=6, then an absolute 0.
    assert_eq!(pin.written(), &vec![5, 6, 7, 8, 7, 6, 0]);
    // period = 600 / 6 = 100; step delay = 200 / (8 - 5) = 66; hold = 200.
    assert_eq!(delay.logged(), &vec![66, 66, 66, 66, 66, 66, 200]);
    assert_eq!(pin.get_duty(), 0);
}

#[test]
fn breath_short_duration_runs_with_zero_step_delay() {
    // period = 600 / 6 = 100, step delay = 200 / 255 = 0 (truncated).
    let mut led = LEDEffect::new(RecordingPin::new(255), RecordingDelay::new(), 0, 255).unwrap();
    assert!(led.breath(600).is_ok());
    let (pin, delay) = led.into_parts();

    let writes = pin.written();
    assert_eq!(writes.len(), 511);
    // Rising: 0..=254; first value at the maximum comes right after.
    assert_eq!(writes[0], 0);
    assert_eq!(writes[254], 254);
    assert_eq!(writes[255], 255);
    // Falling: 255..=1; then the final absolute 0.
    assert_eq!(writes[509], 1);
    assert_eq!(writes[510], 0);

    let delays = delay.logged();
    assert_eq!(delays.len(), 511);
    assert!(delays[..510].iter().all(|&d| d == 0));
    assert_eq!(delays[510], 200);
}

#[test]
fn heartbeat_tempo_and_ungrouped_pauses() {
    // period = (60000 / 60) / 6 = 166, short = 55; grouped_as == 1 makes
    // every pause period * 2 = 332.
    let mut led = LEDEffect::new(RecordingPin::new(255), RecordingDelay::new(), 5, 255).unwrap();
    assert!(led.heartbeat(2, 1, 60).is_ok());
    let (pin, delay) = led.into_parts();

    // Per beat: flash max, flash min, settle mid, decay 130..=5 (126 writes).
    let mut expected_writes: Vec<u32> = Vec::new();
    for _ in 0..2 {
        expected_writes.extend([255, 5, 130]);
        expected_writes.extend((5..=130).rev());
    }
    expected_writes.push(0);
    assert_eq!(pin.written(), &expected_writes);

    // down delay = 332 / (130 - 5) = 2.
    let mut expected_delays: Vec<u32> = Vec::new();
    for _ in 0..2 {
        expected_delays.extend([55, 110]);
        expected_delays.extend(std::iter::repeat(2).take(126));
        expected_delays.push(332);
    }
    assert_eq!(delay.logged(), &expected_delays);
}

#[test]
fn heartbeat_grouped_as_three_pause_pattern() {
    // period = 166; beats 1 and 2 of each group pause one period, beat 3
    // pauses (period * 2) + (3 * period) = 830; pattern repeats.
    let mut led = LEDEffect::new(RecordingPin::new(255), RecordingDelay::new(), 5, 9).unwrap();
    assert!(led.heartbeat(6, 3, 60).is_ok());
    let (_pin, delay) = led.into_parts();

    let delays = delay.logged();
    // mid = 7; per beat: 2 flash delays + 3 decay delays + 1 pause = 6.
    assert_eq!(delays.len(), 36);
    let pauses: Vec<u32> = (0..6).map(|beat| delays[beat * 6 + 5]).collect();
    assert_eq!(pauses, vec![166, 166, 830, 166, 166, 830]);
}

#[test]
fn heartbeat_beats_flash_and_decay_to_minimum() {
    let mut led = LEDEffect::new(RecordingPin::new(255), RecordingDelay::new(), 5, 9).unwrap();
    assert!(led.heartbeat(2, 3, 60).is_ok());
    let (pin, _delay) = led.into_parts();
    // mid = 7; each beat: on at max, off at min, settle mid, decay 7..=5.
    assert_eq!(pin.written(), &vec![9, 5, 7, 7, 6, 5, 9, 5, 7, 7, 6, 5, 0]);
}

#[test]
fn heartbeat_decay_stops_at_a_zero_minimum() {
    let mut led = LEDEffect::new(RecordingPin::new(255), RecordingDelay::new(), 0, 4).unwrap();
    assert_eq!(led.calibration(), (0, 2, 4));
    assert!(led.heartbeat(1, 1, 60).is_ok());
    let (pin, _delay) = led.into_parts();
    assert_eq!(pin.written(), &vec![4, 0, 2, 2, 1, 0, 0]);
}

#[test]
fn heartbeat_with_zero_beats_only_switches_off() {
    let mut led = LEDEffect::new(RecordingPin::new(255), RecordingDelay::new(), 5, 255).unwrap();
    assert!(led.heartbeat(0, 1, 60).is_ok());
    let (pin, delay) = led.into_parts();
    assert_eq!(pin.written(), &vec![0]);
    assert!(delay.logged().is_empty());
}

#[test]
fn heartbeat_rejects_degenerate_parameters() {
    let mut led = LEDEffect::new(RecordingPin::new(255), RecordingDelay::new(), 5, 255).unwrap();
    assert!(matches!(led.heartbeat(2, 1, 0), Err(Error::InvalidParameter)));
    assert!(matches!(led.heartbeat(2, 0, 60), Err(Error::InvalidParameter)));
    let (pin, delay) = led.into_parts();
    assert!(pin.written().is_empty());
    assert!(delay.logged().is_empty());

    // A span of one duty unit puts the midpoint on the minimum; the decay
    // divisor would be zero.
    let mut narrow = LEDEffect::new(RecordingPin::new(255), RecordingDelay::new(), 5, 6).unwrap();
    assert_eq!(narrow.calibration(), (5, 5, 6));
    assert!(matches!(narrow.heartbeat(1, 1, 60), Err(Error::InvalidParameter)));
}

#[test]
fn recording_pin_reports_its_capabilities() {
    let pin = RecordingPin::new(255);
    assert_eq!(pin.get_max_duty(), 255);
    assert_eq!(pin.get_duty(), 0);
    assert!(!pin.is_enabled());
}

#[test]
fn effects_are_stateless_between_invocations() {
    let mut led = LEDEffect::new(RecordingPin::new(255), RecordingDelay::new(), 5, 7).unwrap();
    assert!(led.breath(60).is_ok());
    assert!(led.heartbeat(1, 1, 60).is_ok());
    let (pin, _delay) = led.into_parts();
    // The heartbeat writes follow the breathing writes unchanged: no state
    // carries over beyond the calibration. mid = 6; decay 6..=5.
    assert_eq!(pin.written(), &vec![5, 6, 7, 6, 0, 7, 5, 6, 6, 5, 0]);
}

#[test]
fn teardown_preserves_last_written_duty() {
    let mut led = LEDEffect::new(RecordingPin::new(255), RecordingDelay::new(), 5, 8).unwrap();
    assert!(led.breath(60).is_ok());
    let pin = led.destroy();
    // The last effect write was the absolute 0; teardown added nothing.
    assert_eq!(pin.get_duty(), 0);
    assert_eq!(pin.written().len(), 7);
    assert_eq!(*pin.written().last().unwrap(), 0);
}
