use treat_dispenser_api::config::{init_motor, Motor, MotorConfig};
use treat_dispenser_api::motor::{
    last_step_index, phase_for_step, steps_for_degrees, Direction, DirectionJitter, Nema14Config, StepMode, Stepper28BYJ48,
    StepperMock, StepperMotor, StepperNema14, JITTER_MAX_STEPS, JITTER_MIN_STEPS,
};

#[test]
fn byj48_steps_per_rotation() {
    let m = Stepper28BYJ48::new();
    assert_eq!(m.get_step_count_for_full_rotation(&StepMode::Full), 2048);
    assert_eq!(m.get_step_count_for_full_rotation(&StepMode::Half), 4096);
    assert_eq!(m.get_step_count_for_full_rotation(&StepMode::Sixteenth), 32768);
    assert_eq!(m.get_name(), "Stepper28BYJ48");
    assert!(m.requires_gpio());
}

#[test]
fn byj48_sequences() {
    let m = Stepper28BYJ48::new();
    assert_eq!(m.step_sequence(&StepMode::Full, &Direction::Clockwise), Ok(vec![3, 6, 12, 9]));
    assert_eq!(m.step_sequence(&StepMode::Full, &Direction::CounterClockwise), Ok(vec![9, 12, 6, 3]));
    assert_eq!(
        m.step_sequence(&StepMode::Half, &Direction::CounterClockwise),
        Ok(vec![9, 8, 12, 4, 6, 2, 3, 1])
    );
    assert!(m.step_sequence(&StepMode::Quarter, &Direction::Clockwise).is_err());
    assert_eq!(m.delay_between_steps_ms(&StepMode::Full), Some(2));
    assert_eq!(m.delay_between_steps_ms(&StepMode::Half), Some(1));
    assert_eq!(m.delay_between_steps_ms(&StepMode::Eighth), None);
}

#[test]
fn degrees_to_steps() {
    assert_eq!(steps_for_degrees(2160, 2048), 12288);
    assert_eq!(steps_for_degrees(2160, 200), 1200);
    assert_eq!(steps_for_degrees(360, 200), 200);
    // 1 degree of 200 steps is 0.56 steps: rounds to 1
    assert_eq!(steps_for_degrees(1, 200), 1);
    assert_eq!(steps_for_degrees(0, 200), 0);
    assert_eq!(steps_for_degrees(u32::MAX, u32::MAX), u32::MAX);
}

#[test]
fn dispense_steps_per_motor() {
    assert_eq!(Motor::StepperMock(StepperMock::new()).dispense_steps(), 12288);
    assert_eq!(Motor::Stepper28BYJ48(Stepper28BYJ48::new()).dispense_steps(), 12288);
    let nema = Motor::StepperNema14(StepperNema14::new(Nema14Config::default()));
    assert_eq!(nema.dispense_steps(), 1200);
}

#[test]
fn last_index_of_a_run() {
    assert_eq!(last_step_index(0, 4), 0);
    assert_eq!(last_step_index(1, 4), 0);
    assert_eq!(last_step_index(6, 4), 1);
    assert_eq!(last_step_index(12288, 4), 3);
}

#[test]
fn nema14_properties() {
    let m = StepperNema14::new(Nema14Config::default());
    assert_eq!(m.get_step_count_for_full_rotation(&StepMode::Half), 200);
    assert_eq!(m.get_name(), "StepperNema14");
    assert!(m.check_step_mode(&StepMode::Full).is_ok());
    assert!(m.check_step_mode(&StepMode::Half).is_err());
    assert_eq!(m.config.step_speed_us_or_default(), 1000);
    let c = Nema14Config { step_speed_us: Some(250), ..Nema14Config::default() };
    assert_eq!(c.step_speed_us_or_default(), 250);
}

#[test]
fn nema14_default_pins() {
    let c = Nema14Config::default();
    assert_eq!((c.dir_pin, c.step_pin, c.sleep_pin, c.reset_pin, c.enable_pin), (26, 19, 13, 6, 17));
}

#[test]
fn mock_motor_properties() {
    let m = StepperMock::new();
    assert_eq!(m.get_step_count_for_full_rotation(&StepMode::Full), 2048);
    assert_eq!(m.get_name(), "StepperMock");
    assert!(!m.requires_gpio());
}

#[test]
fn jitter_toggles_within_bounds() {
    let mut jitter = DirectionJitter::new(&Direction::Clockwise);
    assert!(jitter.is_dir_high());
    let mut since = 0u32;
    let mut toggles = 0;
    for _ in 0..5000 {
        since += 1;
        if jitter.advance() {
            assert!(since >= JITTER_MIN_STEPS && since <= JITTER_MAX_STEPS, "toggled after {}", since);
            since = 0;
            toggles += 1;
        }
    }
    assert!(toggles >= 5000 / JITTER_MAX_STEPS);
    let jitter = DirectionJitter::new(&Direction::CounterClockwise);
    assert!(!jitter.is_dir_high());
}

#[test]
fn motor_selection() {
    let cfg = |t: &str, nema: Option<Nema14Config>| MotorConfig { motor_type: t.to_string(), nema14: nema, cooldown_ms: None };
    assert!(matches!(init_motor(&cfg("StepperMock", None)), Ok(Motor::StepperMock(_))));
    assert!(matches!(init_motor(&cfg("Stepper28BYJ48", None)), Ok(Motor::Stepper28BYJ48(_))));
    assert!(init_motor(&cfg("StepperNema14", None)).is_err());
    assert!(matches!(init_motor(&cfg("StepperNema14", Some(Nema14Config::default()))), Ok(Motor::StepperNema14(_))));
    assert!(init_motor(&cfg("Servo", None)).is_err());
    let mock = Motor::StepperMock(StepperMock::new());
    assert_eq!(mock.name(), "StepperMock");
    assert!(!mock.requires_gpio());
}

#[test]
fn step_mode_names() {
    assert_eq!(StepMode::Full.name(), "Full");
    assert_eq!(StepMode::Sixteenth.name(), "Sixteenth");
}

#[test]
fn phases_cycle_through_the_sequence() {
    let seq = vec![9u8, 12, 6, 3];
    assert_eq!(phase_for_step(&seq, 0), 9);
    assert_eq!(phase_for_step(&seq, 5), 12);
    assert_eq!(phase_for_step(&seq, 12287), 3);
}
