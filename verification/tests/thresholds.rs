use superfreq::config::{BatteryChargeThresholds, ConfigError};

fn validation_message(r: Result<BatteryChargeThresholds, ConfigError>) -> String {
    match r {
        Err(ConfigError::Validation(m)) => m,
        other => panic!("expected a validation error, got {:?}", other),
    }
}

#[test]
fn thresholds_are_built_from_a_valid_pair() {
    let t = BatteryChargeThresholds::new(40, 80).unwrap();
    assert_eq!(t.start, 40);
    assert_eq!(t.stop, 80);
    assert_eq!(BatteryChargeThresholds::new(0, 1).unwrap(), BatteryChargeThresholds { start: 0, stop: 1 });
    assert_eq!(BatteryChargeThresholds::new(99, 100).unwrap(), BatteryChargeThresholds { start: 99, stop: 100 });
}

#[test]
fn thresholds_refuse_a_zero_stop() {
    assert_eq!(
        validation_message(BatteryChargeThresholds::new(0, 0)),
        "Stop threshold must be greater than 0%"
    );
}

#[test]
fn thresholds_refuse_a_start_at_or_above_stop() {
    assert_eq!(
        validation_message(BatteryChargeThresholds::new(80, 40)),
        "Start threshold (80) must be less than stop threshold (40)"
    );
    assert_eq!(
        validation_message(BatteryChargeThresholds::new(7, 7)),
        "Start threshold (7) must be less than stop threshold (7)"
    );
}

#[test]
fn thresholds_refuse_a_stop_above_full() {
    assert_eq!(
        validation_message(BatteryChargeThresholds::new(50, 101)),
        "Stop threshold (101) cannot exceed 100%"
    );
    assert_eq!(
        validation_message(BatteryChargeThresholds::new(200, 255)),
        "Stop threshold (255) cannot exceed 100%"
    );
}

#[test]
fn thresholds_succeed_exactly_on_valid_pairs() {
    for start in 0..=255u8 {
        for stop in 0..=255u8 {
            let expected = stop > 0 && start < stop && stop <= 100;
            assert_eq!(BatteryChargeThresholds::new(start, stop).is_ok(), expected);
            assert_eq!(BatteryChargeThresholds::try_from((start, stop)).is_ok(), expected);
        }
    }
}

#[test]
fn thresholds_are_built_from_a_pair() {
    assert_eq!(
        BatteryChargeThresholds::try_from((20, 90)).unwrap(),
        BatteryChargeThresholds { start: 20, stop: 90 }
    );
    let converted: Result<BatteryChargeThresholds, ConfigError> = (90, 20).try_into();
    assert_eq!(
        validation_message(converted),
        "Start threshold (90) must be less than stop threshold (20)"
    );
}
