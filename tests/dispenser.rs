use treat_dispenser_api::application_state::{ApplicationState, DispenserStatus};
use treat_dispenser_api::config::{
    init_motor, select_power_sensor, select_weight_sensor, ApiConfig, AppConfig, Motor, MotorConfig,
    PowerMonitorConfig, PowerSensorKind, WeightMonitorConfig, WeightSensorKind,
};
use treat_dispenser_api::error::ApiError;
use treat_dispenser_api::motor::StepperMock;
use treat_dispenser_api::power_monitor::{PowerMonitor, WINDOW_TICKS};
use treat_dispenser_api::sensors::{PowerReading, WeightSensorCalibration};

fn config(motor_type: &str, cooldown_ms: Option<u64>, limit_ma: Option<i32>) -> AppConfig {
    AppConfig {
        api: ApiConfig {
            listen_address: "127.0.0.1:0".to_string(),
            admin_user: "admin".to_string(),
            admin_password: "password".to_string(),
        },
        motor: MotorConfig { motor_type: motor_type.to_string(), nema14: None, cooldown_ms },
        power_monitor: PowerMonitorConfig { sensor: "SensorMock".to_string(), motor_current_limit_ma: limit_ma },
        weight_monitor: WeightMonitorConfig { sensor: "SensorMock".to_string() },
    }
}

fn state_with(weight_sensor: Option<String>) -> ApplicationState {
    ApplicationState::new(
        config("StepperMock", Some(5000), Some(700)),
        Motor::StepperMock(StepperMock::new()),
        false,
        Some("SensorMock".to_string()),
        weight_sensor,
        None,
        1_000,
        "0.1.0".to_string(),
    )
}

fn mock_state() -> ApplicationState {
    state_with(Some("SensorMock".to_string()))
}

#[test]
fn mock_motor_starts_operational_without_gpio() {
    let state = mock_state();
    assert_eq!(state.status, DispenserStatus::Operational);
    assert!(state.motor_cancel_token.is_none());
    assert!(!state.calibration_in_progress);
    assert_eq!(state.calibration, WeightSensorCalibration::default());
}

#[test]
fn gpio_motor_without_gpio_starts_no_gpio() {
    let motor = init_motor(&config("Stepper28BYJ48", None, None).motor).unwrap();
    let state = ApplicationState::new(
        config("Stepper28BYJ48", None, None),
        motor,
        false,
        None,
        None,
        None,
        0,
        "0.1.0".to_string(),
    );
    assert_eq!(state.status, DispenserStatus::NoGpio);
    let mut state = state;
    match state.request_dispense() {
        Err(ApiError::Hardware(m)) => {
            assert_eq!(m, "Dispenser is not operational (current status: NoGpio)")
        }
        _ => panic!("expected a hardware error"),
    }
}

#[test]
fn invalid_loaded_calibration_falls_back_to_default() {
    let bad = WeightSensorCalibration { scale_numerator: 3, scale_denominator: 0, offset: 0, tare_raw: 9 };
    let state = ApplicationState::new(
        config("StepperMock", None, None),
        Motor::StepperMock(StepperMock::new()),
        true,
        None,
        None,
        Some(bad),
        0,
        "0.1.0".to_string(),
    );
    assert_eq!(state.calibration, WeightSensorCalibration::default());
    let good = WeightSensorCalibration { scale_numerator: 3, scale_denominator: 2, offset: 0, tare_raw: 9 };
    let state = ApplicationState::new(
        config("StepperMock", None, None),
        Motor::StepperMock(StepperMock::new()),
        true,
        None,
        None,
        Some(good),
        0,
        "0.1.0".to_string(),
    );
    assert_eq!(state.calibration, good);
}

#[test]
fn only_one_of_many_dispense_requests_is_accepted() {
    let mut state = mock_state();
    let first = state.request_dispense();
    assert!(first.is_ok());
    assert_eq!(state.status, DispenserStatus::Dispensing);
    assert!(state.motor_cancel_token.is_some());
    for _ in 0..5 {
        match state.request_dispense() {
            Err(ApiError::Busy(m)) => assert_eq!(m, "Dispenser is already dispensing"),
            _ => panic!("expected busy"),
        }
        assert_eq!(state.status, DispenserStatus::Dispensing);
    }
}

#[test]
fn cooldown_rejects_then_accepts() {
    let mut state = mock_state();
    let ticket = state.request_dispense().ok().unwrap();
    let cooling = state.complete_dispense(&ticket, &Ok(7), 2_000);
    assert!(cooling);
    assert_eq!(state.status, DispenserStatus::Cooldown);
    assert!(state.motor_cancel_token.is_none());
    match state.request_dispense() {
        Err(ApiError::Busy(m)) => assert_eq!(m, "Waiting for cooldown"),
        _ => panic!("expected busy"),
    }
    assert!(state.cooldown_finished(ticket.id, 7, 2_005));
    assert_eq!(state.status, DispenserStatus::Operational);
    assert_eq!(state.last_dispense_time, Some(2_005));
    assert_eq!(state.last_step_index, Some(7));
    assert!(state.request_dispense().is_ok());
}

#[test]
fn cancel_while_dispensing_is_immediate() {
    let mut state = mock_state();
    let ticket = state.request_dispense().ok().unwrap();
    assert!(state.cancel().is_ok());
    assert_eq!(state.status, DispenserStatus::Cancelled);
    assert!(state.motor_cancel_token.is_none());
    assert!(state.cancel_requested);
    assert!(ticket.cancel_token.is_cancelled());
    // the run then stops with an error; the status stays Cancelled
    assert!(!state.complete_dispense(&ticket, &Err("Motor operation cancelled".to_string()), 3_000));
    assert_eq!(state.status, DispenserStatus::Cancelled);
    assert!(state.last_error_msg.is_none());
    // a cancelled dispenser accepts a new dispense
    assert!(state.request_dispense().is_ok());
}

#[test]
fn cancel_without_dispense_fails_and_changes_nothing() {
    let mut state = mock_state();
    match state.cancel() {
        Err(ApiError::Hardware(m)) => assert_eq!(m, "No ongoing motor operation to cancel"),
        _ => panic!("expected a hardware error"),
    }
    assert_eq!(state.status, DispenserStatus::Operational);
}

#[test]
fn overcurrent_cancels_dispense_in_flight() {
    let mut state = mock_state();
    let ticket = state.request_dispense().ok().unwrap();
    let limit = state.app_config.current_limit_ma();
    let mut monitor = PowerMonitor::new();
    let over = PowerReading { bus_voltage_mv: 12000, current_ma: 800, power_mw: 9600 };
    let mut tripped = false;
    for _ in 0..=WINDOW_TICKS {
        let outcome = monitor.on_tick(Some(over), limit);
        if outcome.over_limit {
            tripped = state.signal_overcurrent();
        }
    }
    assert!(tripped);
    assert!(ticket.cancel_token.is_cancelled());
    // the status is unchanged until the run stops
    assert_eq!(state.status, DispenserStatus::Dispensing);
    assert!(!state.complete_dispense(&ticket, &Err("Motor operation cancelled".to_string()), 4_000));
    assert_eq!(state.status, DispenserStatus::Cancelled);
}

#[test]
fn overcurrent_without_dispense_signals_nothing() {
    let mut state = mock_state();
    assert!(!state.signal_overcurrent());
    assert!(!state.cancel_requested);
}

#[test]
fn recorded_interlock_cancels_even_if_the_signal_is_not_seen() {
    let mut state = mock_state();
    let ticket = state.request_dispense().ok().unwrap();
    assert!(!state.cancel_requested);
    assert!(state.signal_overcurrent());
    assert!(state.cancel_requested);
    // a fresh handle that was never signalled: the recorded request still decides
    let unseen = treat_dispenser_api::application_state::DispenseTicket {
        id: ticket.id,
        cancel_token: tokio_util::sync::CancellationToken::new(),
    };
    assert!(!state.complete_dispense(&unseen, &Err("stopped".to_string()), 7_000));
    assert_eq!(state.status, DispenserStatus::Cancelled);
    assert!(state.last_error_msg.is_none());
    // the next dispense starts with no cancellation recorded
    assert!(state.request_dispense().is_ok());
    assert!(!state.cancel_requested);
}

#[test]
fn fractional_known_mass_is_kept() {
    let mut state = mock_state();
    state.begin_calibration().ok().unwrap();
    state.finish_tare(&mut vec![0; 5]).ok().unwrap();
    state.begin_scale_calibration(12_500).ok().unwrap();
    // 25 raw units over 12.5 g: 2 per gram
    let cal = state.finish_scale_calibration(&mut vec![25; 5], 12_500).ok().unwrap();
    assert_eq!(cal.scale_numerator as f64 / cal.scale_denominator as f64, 2.0);
}

#[test]
fn zero_mass_is_rejected_before_sampling() {
    let mut state = mock_state();
    match state.begin_scale_calibration(0) {
        Err(ApiError::BadRequest(m)) => assert_eq!(m, "Known mass must be positive"),
        _ => panic!("expected a bad request"),
    }
    assert_eq!(state.status, DispenserStatus::Operational);
    assert!(!state.calibration_in_progress);
    assert!(state.begin_scale_calibration(1).is_ok());
    assert_eq!(state.status, DispenserStatus::Calibrating);
}

#[test]
fn motor_failure_degrades_to_unknown_and_records_error() {
    let mut state = mock_state();
    let ticket = state.request_dispense().ok().unwrap();
    assert!(!state.complete_dispense(&ticket, &Err("coil fault".to_string()), 5_000));
    assert_eq!(state.status, DispenserStatus::Unknown);
    assert_eq!(state.last_error_msg, Some("coil fault".to_string()));
    assert_eq!(state.last_error_time, Some(5_000));
    match state.request_dispense() {
        Err(ApiError::Hardware(m)) => {
            assert_eq!(m, "Dispenser is not operational (current status: Unknown)")
        }
        _ => panic!("expected a hardware error"),
    }
}

#[test]
fn stale_run_does_not_disturb_a_newer_dispense() {
    let mut state = mock_state();
    let old_ticket = state.request_dispense().ok().unwrap();
    assert!(state.cancel().is_ok());
    let new_ticket = state.request_dispense().ok().unwrap();
    assert_ne!(old_ticket.id, new_ticket.id);
    assert!(!state.complete_dispense(&old_ticket, &Err("Motor operation cancelled".to_string()), 6_000));
    assert_eq!(state.status, DispenserStatus::Dispensing);
    assert!(state.motor_cancel_token.is_some());
    assert!(!state.cooldown_finished(old_ticket.id, 0, 6_001));
    assert_eq!(state.status, DispenserStatus::Dispensing);
}

#[test]
fn empty_dispenser_reports_hardware_error() {
    let mut state = mock_state();
    state.status = DispenserStatus::Empty;
    match state.request_dispense() {
        Err(ApiError::Hardware(m)) => assert_eq!(m, "Dispenser is empty"),
        _ => panic!("expected a hardware error"),
    }
    assert_eq!(state.status, DispenserStatus::Empty);
}

#[test]
fn tare_sets_tare_raw_and_reads_zero() {
    let mut state = mock_state();
    assert!(state.begin_calibration().is_ok());
    assert_eq!(state.status, DispenserStatus::Calibrating);
    assert!(state.weight_sampling_paused());
    let mut samples = vec![1000; 300];
    let cal = state.finish_tare(&mut samples).ok().unwrap();
    assert_eq!(cal.tare_raw, 1000);
    assert_eq!(state.calibration.tare_raw, 1000);
    assert_eq!(state.status, DispenserStatus::Operational);
    assert!(!state.calibration_in_progress);
    let grams = treat_dispenser_api::sensors::weight_from_raw(1000, &state.calibration).grams;
    assert_eq!(grams, 0);
}

#[test]
fn scale_calibration_after_tare() {
    let mut state = mock_state();
    state.begin_calibration().ok().unwrap();
    state.finish_tare(&mut vec![1000; 300]).ok().unwrap();
    state.begin_calibration().ok().unwrap();
    let cal = state.finish_scale_calibration(&mut vec![2000; 300], 500_000).ok().unwrap();
    assert_eq!(cal.scale_numerator as f64 / cal.scale_denominator as f64, 2.0);
    assert_eq!(cal.tare_raw, 1000);
    assert_eq!(state.status, DispenserStatus::Operational);
    // recomputing from the same samples gives the same scale
    state.begin_calibration().ok().unwrap();
    let again = state.finish_scale_calibration(&mut vec![2000; 300], 500_000).ok().unwrap();
    assert_eq!(again, cal);
    let grams = treat_dispenser_api::sensors::weight_from_raw(2000, &state.calibration).grams;
    assert_eq!(grams, 500);
}

#[test]
fn scale_is_positive_below_tare() {
    let mut state = mock_state();
    state.begin_calibration().ok().unwrap();
    state.finish_tare(&mut vec![1000; 10]).ok().unwrap();
    state.begin_calibration().ok().unwrap();
    let cal = state.finish_scale_calibration(&mut vec![0; 10], 500_000).ok().unwrap();
    assert_eq!(cal.scale_numerator, 1_000_000);
    assert_eq!(cal.scale_denominator, 500_000);
}

#[test]
fn zero_known_mass_is_rejected() {
    let mut state = mock_state();
    state.begin_calibration().ok().unwrap();
    match state.finish_scale_calibration(&mut vec![5; 3], 0) {
        Err(ApiError::BadRequest(m)) => assert_eq!(m, "Known mass must be positive"),
        _ => panic!("expected a bad request"),
    }
    assert_eq!(state.status, DispenserStatus::Operational);
    assert!(!state.calibration_in_progress);
    assert_eq!(state.calibration, WeightSensorCalibration::default());
}

#[test]
fn calibration_without_samples_fails() {
    let mut state = mock_state();
    state.begin_calibration().ok().unwrap();
    match state.finish_tare(&mut Vec::new()) {
        Err(ApiError::Hardware(m)) => assert_eq!(m, "No weight samples collected"),
        _ => panic!("expected a hardware error"),
    }
    assert_eq!(state.status, DispenserStatus::CalibrationFailed);
    assert!(!state.calibration_in_progress);
}

#[test]
fn second_calibration_is_busy_while_one_runs() {
    let mut state = mock_state();
    assert!(state.begin_calibration().is_ok());
    match state.begin_calibration() {
        Err(ApiError::Busy(m)) => assert_eq!(m, "Operation in progress"),
        _ => panic!("expected busy"),
    }
    assert_eq!(state.status, DispenserStatus::Calibrating);
    let cal = state.finish_tare(&mut vec![42; 5]).ok().unwrap();
    assert_eq!(state.calibration, cal);
    // the other request, retried after the first completed, sees the whole new record
    assert!(state.begin_calibration().is_ok());
    let scaled = state.finish_scale_calibration(&mut vec![142; 5], 50_000).ok().unwrap();
    assert_eq!(scaled.tare_raw, 42);
    assert_eq!((scaled.scale_numerator, scaled.scale_denominator), (100_000, 50_000));
}

#[test]
fn calibration_refused_while_dispensing() {
    let mut state = mock_state();
    state.request_dispense().ok().unwrap();
    assert!(matches!(state.begin_calibration(), Err(ApiError::Busy(_))));
    assert_eq!(state.status, DispenserStatus::Dispensing);
    assert!(!state.calibration_in_progress);
}

#[test]
fn finishing_without_calibration_is_internal_error() {
    let mut state = mock_state();
    assert!(matches!(state.finish_tare(&mut vec![1]), Err(ApiError::Internal(_))));
    assert!(matches!(state.finish_scale_calibration(&mut vec![1], 5), Err(ApiError::Internal(_))));
    assert_eq!(state.status, DispenserStatus::Operational);
}

#[test]
fn tare_without_weight_sensor_fails() {
    let mut state = state_with(None);
    match state.begin_calibration() {
        Err(ApiError::Hardware(m)) => assert_eq!(m, "No weight sensor available"),
        _ => panic!("expected a hardware error"),
    }
    assert_eq!(state.status, DispenserStatus::CalibrationFailed);
    assert!(!state.calibration_in_progress);
}

#[test]
fn status_snapshot_reports_state() {
    let mut state = mock_state();
    state.publish_power(PowerReading { bus_voltage_mv: 12000, current_ma: 600, power_mw: 500 });
    state.publish_weight(treat_dispenser_api::sensors::WeightReading { grams: 12345 });
    state.record_error("boom".to_string(), 1_010);
    let snap = state.status_snapshot(1_042);
    assert_eq!(snap.uptime_seconds, 42);
    assert_eq!(snap.dispenser_status, "Operational");
    assert!(!snap.gpio_available);
    assert!(!snap.treats_available);
    assert_eq!(snap.motor, "StepperMock");
    assert_eq!(snap.version, "0.1.0");
    assert_eq!(snap.motor_voltage_mv, 12000);
    assert_eq!(snap.motor_current_ma, 600);
    assert_eq!(snap.motor_power_mw, 500);
    assert_eq!(snap.motor_power_sensor, Some("SensorMock".to_string()));
    assert_eq!(snap.remaining_treats_grams, 12345);
    assert_eq!(snap.last_error_msg, Some("boom".to_string()));
    assert_eq!(snap.last_error_time, Some(1_010));
    assert!(snap.last_dispensed.is_none());
    assert_eq!(state.status_snapshot(10).uptime_seconds, 0);
}

#[test]
fn status_names() {
    assert_eq!(DispenserStatus::Cooldown.name(), "Cooldown");
    assert_eq!(DispenserStatus::CalibrationFailed.name(), "CalibrationFailed");
    assert_eq!(DispenserStatus::NoGpio.name(), "NoGpio");
}

#[test]
fn config_defaults() {
    let c = config("StepperMock", None, None);
    assert_eq!(c.cooldown_ms(), 5000);
    assert_eq!(c.current_limit_ma(), 700);
    let c = config("StepperMock", Some(10), Some(100));
    assert_eq!(c.cooldown_ms(), 10);
    assert_eq!(c.current_limit_ma(), 100);
}

#[test]
fn error_messages() {
    assert_eq!(ApiError::Unauthorized.message(), "Unauthorized request");
    assert_eq!(ApiError::Busy("x".to_string()).message(), "Dispenser is busy: x");
    assert_eq!(ApiError::Hardware("x".to_string()).message(), "Hardware error: x");
    assert_eq!(ApiError::BadRequest("x".to_string()).message(), "Bad request: x");
    assert_eq!(ApiError::Internal("x".to_string()).message(), "Internal server error: x");
}

#[test]
fn sensor_selection_by_name() {
    assert_eq!(select_power_sensor(&"SensorINA219".to_string()), Ok(PowerSensorKind::Ina219));
    assert_eq!(select_power_sensor(&"SensorMock".to_string()), Ok(PowerSensorKind::Mock));
    assert!(select_power_sensor(&"SensorHX711".to_string()).is_err());
    assert_eq!(select_weight_sensor(&"SensorHX711".to_string()), Ok(WeightSensorKind::Hx711));
    assert_eq!(select_weight_sensor(&"SensorMock".to_string()), Ok(WeightSensorKind::Mock));
    assert!(select_weight_sensor(&"SensorINA219".to_string()).is_err());
}
