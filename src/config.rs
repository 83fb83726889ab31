use vstd::prelude::*;
use crate::motor::{Direction, Nema14Config, Stepper28BYJ48, StepperMock, StepperMotor, StepperNema14, StepMode, steps_for_degrees, steps_for_degrees_spec};

verus! {

/// Cooldown after a dispense when none is configured.
pub const MOTOR_COOLDOWN_MS_DEFAULT: u64 = 5000;

/// Current limit of the overcurrent interlock when none is configured (0.7 A).
pub const MOTOR_CURRENT_LIMIT_MA_DEFAULT: i32 = 700;

pub struct ApiConfig {
    pub listen_address: String,
    pub admin_user: String,
    pub admin_password: String,
}

pub struct PowerMonitorConfig {
    pub sensor: String,
    /// Limit on the mean motor current, in milliamperes.
    pub motor_current_limit_ma: Option<i32>,
}

pub struct WeightMonitorConfig {
    pub sensor: String,
}

pub struct MotorConfig {
    pub motor_type: String,
    pub nema14: Option<Nema14Config>,
    pub cooldown_ms: Option<u64>,
}

/// Settings loaded once at startup.
pub struct AppConfig {
    pub api: ApiConfig,
    pub motor: MotorConfig,
    pub power_monitor: PowerMonitorConfig,
    pub weight_monitor: WeightMonitorConfig,
}

impl AppConfig {
    pub fn cooldown_ms(&self) -> (r: u64)
        ensures
            r == (match self.motor.cooldown_ms {
                Some(v) => v,
                None => MOTOR_COOLDOWN_MS_DEFAULT,
            }),
    {
        match self.motor.cooldown_ms {
            Some(v) => v,
            None => MOTOR_COOLDOWN_MS_DEFAULT,
        }
    }

    pub fn current_limit_ma(&self) -> (r: i32)
        ensures
            r == (match self.power_monitor.motor_current_limit_ma {
                Some(v) => v,
                None => MOTOR_CURRENT_LIMIT_MA_DEFAULT,
            }),
    {
        match self.power_monitor.motor_current_limit_ma {
            Some(v) => v,
            None => MOTOR_CURRENT_LIMIT_MA_DEFAULT,
        }
    }
}

/// Rotation of one dispense: six full turns.
pub const DISPENSE_DEGREES: u32 = 2160;

/// Step mode of a dispense.
pub const DISPENSE_STEP_MODE: StepMode = StepMode::Full;

/// Direction of a dispense.
pub const DISPENSE_DIRECTION: Direction = Direction::CounterClockwise;

/// Raw samples collected by a tare or scale calibration (about 3 s of samples).
pub const CALIBRATION_SAMPLE_COUNT: u32 = 300;

/// Pause between two weight samples, matched to the load cell's conversion rate.
pub const WEIGHT_SAMPLE_INTERVAL_MS: u64 = 15;

/// Pause between two power samples.
pub const POWER_SAMPLE_INTERVAL_MS: u64 = 100;

/// The motor backend selected by the configuration.
#[derive(Clone, Copy)]
pub enum Motor {
    Stepper28BYJ48(Stepper28BYJ48),
    StepperNema14(StepperNema14),
    StepperMock(StepperMock),
}

pub open spec fn motor_name(m: Motor) -> Seq<char> {
    match m {
        Motor::Stepper28BYJ48(_) => "Stepper28BYJ48"@,
        Motor::StepperNema14(_) => "StepperNema14"@,
        Motor::StepperMock(_) => "StepperMock"@,
    }
}

/// Whether a backend drives GPIO pins; only the mock does not.
pub open spec fn motor_requires_gpio(m: Motor) -> bool {
    !(m is StepperMock)
}

/// Steps per full rotation of a backend in a step mode.
pub open spec fn motor_steps_per_rotation(m: Motor, mode: StepMode) -> int {
    match m {
        Motor::Stepper28BYJ48(x) => x.steps_per_rotation(mode),
        Motor::StepperNema14(x) => x.steps_per_rotation(mode),
        Motor::StepperMock(x) => x.steps_per_rotation(mode),
    }
}

impl Motor {
    pub fn name(&self) -> (r: String)
        ensures
            r@ == motor_name(*self),
    {
        match self {
            Motor::Stepper28BYJ48(_) => String::from_str("Stepper28BYJ48"),
            Motor::StepperNema14(_) => String::from_str("StepperNema14"),
            Motor::StepperMock(_) => String::from_str("StepperMock"),
        }
    }

    pub fn requires_gpio(&self) -> (r: bool)
        ensures
            r == motor_requires_gpio(*self),
    {
        match self {
            Motor::StepperMock(_) => false,
            _ => true,
        }
    }

    pub fn steps_per_rotation(&self, step_mode: &StepMode) -> (r: u32)
        ensures
            r == motor_steps_per_rotation(*self, *step_mode),
    {
        match self {
            Motor::Stepper28BYJ48(m) => m.get_step_count_for_full_rotation(step_mode),
            Motor::StepperNema14(m) => m.get_step_count_for_full_rotation(step_mode),
            Motor::StepperMock(m) => m.get_step_count_for_full_rotation(step_mode),
        }
    }

    /// Steps of one dispense: `DISPENSE_DEGREES` in `DISPENSE_STEP_MODE`.
    pub fn dispense_steps(&self) -> (r: u32)
        ensures
            r == steps_for_degrees_spec(
                DISPENSE_DEGREES as int,
                motor_steps_per_rotation(*self, DISPENSE_STEP_MODE) as int,
            ),
    {
        let spr = self.steps_per_rotation(&DISPENSE_STEP_MODE);
        proof {
            assert(0 <= (DISPENSE_DEGREES as int) * (spr as int) <= 2160 * 32768) by (nonlinear_arith)
                requires spr <= 32768;
        }
        steps_for_degrees(DISPENSE_DEGREES, spr)
    }
}

/// Power sensors that the configuration can name.
#[derive(Clone, Copy, Debug, PartialEq, Eq, Structural)]
pub enum PowerSensorKind {
    Ina219,
    Mock,
}

/// Weight sensors that the configuration can name.
#[derive(Clone, Copy, Debug, PartialEq, Eq, Structural)]
pub enum WeightSensorKind {
    Hx711,
    Mock,
}

/// The power sensor named `SensorINA219` or `SensorMock`; any other name is unsupported.
pub fn select_power_sensor(name: &String) -> (r: Result<PowerSensorKind, String>)
    ensures
        name@ == "SensorINA219"@ <==> r == Ok::<PowerSensorKind, String>(PowerSensorKind::Ina219),
        name@ == "SensorMock"@ <==> r == Ok::<PowerSensorKind, String>(PowerSensorKind::Mock),
{
    proof {
        reveal_strlit("SensorINA219");
        reveal_strlit("SensorMock");
        assert("SensorINA219"@.len() != "SensorMock"@.len());
    }
    if *name == String::from_str("SensorINA219") {
        Ok(PowerSensorKind::Ina219)
    } else if *name == String::from_str("SensorMock") {
        Ok(PowerSensorKind::Mock)
    } else {
        Err(String::from_str("Unsupported power sensor type"))
    }
}

/// The weight sensor named `SensorHX711` or `SensorMock`; any other name is unsupported.
pub fn select_weight_sensor(name: &String) -> (r: Result<WeightSensorKind, String>)
    ensures
        name@ == "SensorHX711"@ <==> r == Ok::<WeightSensorKind, String>(WeightSensorKind::Hx711),
        name@ == "SensorMock"@ <==> r == Ok::<WeightSensorKind, String>(WeightSensorKind::Mock),
{
    proof {
        reveal_strlit("SensorHX711");
        reveal_strlit("SensorMock");
        assert("SensorHX711"@.len() != "SensorMock"@.len());
    }
    if *name == String::from_str("SensorHX711") {
        Ok(WeightSensorKind::Hx711)
    } else if *name == String::from_str("SensorMock") {
        Ok(WeightSensorKind::Mock)
    } else {
        Err(String::from_str("Unsupported weight sensor type"))
    }
}

/// Selects the motor backend named by the configuration. A NEMA 14 needs its pin settings.
pub fn init_motor(config: &MotorConfig) -> (r: Result<Motor, String>)
    ensures
        config.motor_type@ == "Stepper28BYJ48"@ ==> r matches Ok(Motor::Stepper28BYJ48(_)),
        config.motor_type@ == "StepperNema14"@ ==> (match config.nema14 {
            Some(c) => r matches Ok(Motor::StepperNema14(m)) && m.config == c,
            None => r is Err,
        }),
        config.motor_type@ == "StepperMock"@ ==> r matches Ok(Motor::StepperMock(_)),
        config.motor_type@ != "Stepper28BYJ48"@ && config.motor_type@ != "StepperNema14"@
            && config.motor_type@ != "StepperMock"@ ==> r is Err,
{
    proof {
        reveal_strlit("Stepper28BYJ48");
        reveal_strlit("StepperNema14");
        reveal_strlit("StepperMock");
        assert("StepperNema14"@.len() != "Stepper28BYJ48"@.len());
        assert("StepperMock"@.len() != "Stepper28BYJ48"@.len());
        assert("StepperMock"@.len() != "StepperNema14"@.len());
    }
    if config.motor_type == String::from_str("Stepper28BYJ48") {
        Ok(Motor::Stepper28BYJ48(Stepper28BYJ48::new()))
    } else if config.motor_type == String::from_str("StepperNema14") {
        match config.nema14 {
            Some(c) => Ok(Motor::StepperNema14(StepperNema14::new(c))),
            None => Err(String::from_str("Nema14 configuration is missing")),
        }
    } else if config.motor_type == String::from_str("StepperMock") {
        Ok(Motor::StepperMock(StepperMock::new()))
    } else {
        Err(String::from_str("Unsupported motor type"))
    }
}

} // verus!
