use vstd::prelude::*;
use tokio_util::sync::CancellationToken;
use crate::config::{AppConfig, Motor, motor_name, motor_requires_gpio};
use crate::error::ApiError;
use crate::sensors::{PowerReading, WeightReading, WeightSensorCalibration, grams_from_raw};
use crate::power_monitor::{mean_current_exceeds, lemma_window_above_limit};
use crate::rounding::round_div;
use crate::weight_monitor::{calculate_trimmed_mean, trimmed_mean, lemma_trimmed_mean_of_constant};

verus! {

/// State of the dispenser's state machine.
#[derive(Clone, Copy, Debug, PartialEq, Eq, Structural)]
pub enum DispenserStatus {
    Dispensing,
    Operational,
    Jammed,
    Empty,
    Unknown,
    MotorControlError,
    NoGpio,
    Cooldown,
    Cancelled,
    Calibrating,
    CalibrationFailed,
}

pub open spec fn status_name(s: DispenserStatus) -> Seq<char> {
    match s {
        DispenserStatus::Dispensing => "Dispensing"@,
        DispenserStatus::Operational => "Operational"@,
        DispenserStatus::Jammed => "Jammed"@,
        DispenserStatus::Empty => "Empty"@,
        DispenserStatus::Unknown => "Unknown"@,
        DispenserStatus::MotorControlError => "MotorControlError"@,
        DispenserStatus::NoGpio => "NoGpio"@,
        DispenserStatus::Cooldown => "Cooldown"@,
        DispenserStatus::Cancelled => "Cancelled"@,
        DispenserStatus::Calibrating => "Calibrating"@,
        DispenserStatus::CalibrationFailed => "CalibrationFailed"@,
    }
}

impl DispenserStatus {
    pub fn name(&self) -> (r: String)
        ensures
            r@ == status_name(*self),
    {
        match self {
            DispenserStatus::Dispensing => String::from_str("Dispensing"),
            DispenserStatus::Operational => String::from_str("Operational"),
            DispenserStatus::Jammed => String::from_str("Jammed"),
            DispenserStatus::Empty => String::from_str("Empty"),
            DispenserStatus::Unknown => String::from_str("Unknown"),
            DispenserStatus::MotorControlError => String::from_str("MotorControlError"),
            DispenserStatus::NoGpio => String::from_str("NoGpio"),
            DispenserStatus::Cooldown => String::from_str("Cooldown"),
            DispenserStatus::Cancelled => String::from_str("Cancelled"),
            DispenserStatus::Calibrating => String::from_str("Calibrating"),
            DispenserStatus::CalibrationFailed => String::from_str("CalibrationFailed"),
        }
    }
}

/// How a dispense request is answered in a given status.
#[derive(Clone, Copy, Debug, PartialEq, Eq, Structural)]
pub enum DispenseDecision {
    Accept,
    Busy,
    Unavailable,
}

pub open spec fn dispense_decision(s: DispenserStatus) -> DispenseDecision {
    match s {
        DispenserStatus::Operational | DispenserStatus::Cancelled => DispenseDecision::Accept,
        DispenserStatus::Dispensing | DispenserStatus::Cooldown => DispenseDecision::Busy,
        _ => DispenseDecision::Unavailable,
    }
}

/// Status after a dispense request: `Dispensing` when accepted, else unchanged.
pub open spec fn status_after_request(s: DispenserStatus) -> DispenserStatus {
    if dispense_decision(s) == DispenseDecision::Accept {
        DispenserStatus::Dispensing
    } else {
        s
    }
}

pub open spec fn not_operational_text(s: DispenserStatus) -> Seq<char> {
    "Dispenser is not operational (current status: "@ + status_name(s) + ")"@
}

/// The error with which a dispense request is turned down in status `s`.
pub open spec fn is_dispense_rejection(s: DispenserStatus, e: ApiError) -> bool {
    match s {
        DispenserStatus::Dispensing => e matches ApiError::Busy(m) && m@ == "Dispenser is already dispensing"@,
        DispenserStatus::Cooldown => e matches ApiError::Busy(m) && m@ == "Waiting for cooldown"@,
        DispenserStatus::Empty => e matches ApiError::Hardware(m) && m@ == "Dispenser is empty"@,
        _ => e matches ApiError::Hardware(m) && m@ == not_operational_text(s),
    }
}

/// Status in which a finished motor run leaves the dispenser.
pub open spec fn motor_outcome_status(run_ok: bool, was_cancelled: bool) -> DispenserStatus {
    if run_ok {
        DispenserStatus::Cooldown
    } else if was_cancelled {
        DispenserStatus::Cancelled
    } else {
        DispenserStatus::Unknown
    }
}

/// Statuses in which another operation is under way.
pub open spec fn operation_in_progress(s: DispenserStatus) -> bool {
    s == DispenserStatus::Dispensing || s == DispenserStatus::Cooldown || s == DispenserStatus::Calibrating
}

/// Statuses from which a calibration may start.
pub open spec fn calibration_allowed(s: DispenserStatus) -> bool {
    s == DispenserStatus::Operational || s == DispenserStatus::Cancelled
}

/// The calibration after a tare over `samples`.
pub open spec fn tared(cal: WeightSensorCalibration, samples: Seq<i32>) -> WeightSensorCalibration {
    WeightSensorCalibration { tare_raw: trimmed_mean(samples) as i32, ..cal }
}

pub open spec fn abs_int(x: int) -> int {
    if x < 0 {
        -x
    } else {
        x
    }
}

/// The calibration after a scale calibration over `samples` taken with a known mass of
/// `known_mass_mg` milligrams on the load cell:
/// `scale = |trimmed_mean - tare_raw| / (known_mass_mg / 1000)` raw units per gram.
pub open spec fn scaled(cal: WeightSensorCalibration, samples: Seq<i32>, known_mass_mg: u32) -> WeightSensorCalibration {
    WeightSensorCalibration {
        scale_numerator: (abs_int(trimmed_mean(samples) - cal.tare_raw) * 1000) as u64,
        scale_denominator: known_mass_mg,
        ..cal
    }
}

/// Calibration mutual exclusion: while one calibration runs every other is refused
/// (`begin_calibration`), so a tare over `tare_samples` and a scale calibration over
/// `scale_samples` complete one after the other, each replacing the whole record in one
/// step. Whichever completes first, the final record is a complete one: the offset is kept,
/// the tare is the tare's result, and the scale is the scale calibration's result against
/// the tare in force when it completed.
pub proof fn lemma_calibrations_serialize(
    c0: WeightSensorCalibration,
    tare_samples: Seq<i32>,
    scale_samples: Seq<i32>,
    known_mass_mg: u32,
)
    requires
        c0.wf(),
        tare_samples.len() > 0,
        scale_samples.len() > 0,
        known_mass_mg > 0,
    ensures
        operation_in_progress(DispenserStatus::Calibrating),
        ({
            let c = scaled(tared(c0, tare_samples), scale_samples, known_mass_mg);
            &&& c.wf()
            &&& c.offset == c0.offset
            &&& c.tare_raw == trimmed_mean(tare_samples)
            &&& c.scale_numerator == abs_int(trimmed_mean(scale_samples) - trimmed_mean(tare_samples)) * 1000
            &&& c.scale_denominator == known_mass_mg
        }),
        ({
            let c = tared(scaled(c0, scale_samples, known_mass_mg), tare_samples);
            &&& c.wf()
            &&& c.offset == c0.offset
            &&& c.tare_raw == trimmed_mean(tare_samples)
            &&& c.scale_numerator == abs_int(trimmed_mean(scale_samples) - c0.tare_raw) * 1000
            &&& c.scale_denominator == known_mass_mg
        }),
{
    crate::weight_monitor::lemma_trimmed_mean_in_range(tare_samples);
    crate::weight_monitor::lemma_trimmed_mean_in_range(scale_samples);
    let t = trimmed_mean(tare_samples);
    let m = trimmed_mean(scale_samples);
    assert(0 <= abs_int(m - t) * 1000 <= 0x1_0000_0000 * 1000);
    assert(0 <= abs_int(m - c0.tare_raw) * 1000 <= 0x1_0000_0000 * 1000);
}

/// What observers see of the dispenser. Hardware checks are not available, so the
/// motor and the treat supply count as usable exactly when GPIO is.
pub struct StatusResponse {
    pub gpio_available: bool,
    pub motor_operational: bool,
    pub treats_available: bool,
    pub last_dispensed: Option<u64>,
    pub uptime_seconds: u64,
    pub dispenser_status: String,
    pub last_error_msg: Option<String>,
    pub last_error_time: Option<u64>,
    pub version: String,
    pub motor: String,
    pub motor_voltage_mv: i32,
    pub motor_current_ma: i32,
    pub motor_power_mw: i32,
    pub motor_power_sensor: Option<String>,
    pub remaining_treats_grams: i32,
    pub calibration: WeightSensorCalibration,
}

/// The answers to `n` dispense requests handled one after another, from status `s`, with
/// nothing else happening in between.
pub open spec fn decisions_of_requests(s: DispenserStatus, n: nat) -> Seq<DispenseDecision>
    decreases n,
{
    if n == 0 {
        Seq::empty()
    } else {
        seq![dispense_decision(s)] + decisions_of_requests(status_after_request(s), (n - 1) as nat)
    }
}

proof fn lemma_decisions_len(s: DispenserStatus, n: nat)
    ensures
        decisions_of_requests(s, n).len() == n,
    decreases n,
{
    if n > 0 {
        lemma_decisions_len(status_after_request(s), (n - 1) as nat);
    }
}

/// In a status that answers busy, every request is answered busy (a busy answer keeps the
/// status).
proof fn lemma_requests_while_busy(s: DispenserStatus, n: nat)
    requires
        dispense_decision(s) == DispenseDecision::Busy,
    ensures
        forall|i: int| 0 <= i < n ==> #[trigger] decisions_of_requests(s, n)[i] == DispenseDecision::Busy,
    decreases n,
{
    if n > 0 {
        lemma_requests_while_busy(s, (n - 1) as nat);
        lemma_decisions_len(s, (n - 1) as nat);
        let rest = decisions_of_requests(s, (n - 1) as nat);
        let all = decisions_of_requests(s, n);
        assert forall|i: int| 0 <= i < n implies #[trigger] all[i] == DispenseDecision::Busy by {
            if i > 0 {
                assert(all[i] == rest[i - 1]);
            }
        }
    }
}

/// State exclusivity: of any number of dispense requests, handled one at a time under the
/// lock, at most one is accepted (only the first can be), and every request after an
/// accepted one is answered busy.
pub proof fn lemma_dispense_exclusive(s: DispenserStatus, n: nat)
    ensures
        decisions_of_requests(s, n).len() == n,
        forall|i: int| 0 < i < n ==> #[trigger] decisions_of_requests(s, n)[i] != DispenseDecision::Accept,
        forall|i: int, j: int|
            0 <= i < j < n && decisions_of_requests(s, n)[i] == DispenseDecision::Accept
                ==> decisions_of_requests(s, n)[j] == DispenseDecision::Busy,
    decreases n,
{
    if n > 0 {
        let next = status_after_request(s);
        let rest = decisions_of_requests(next, (n - 1) as nat);
        let all = decisions_of_requests(s, n);
        lemma_dispense_exclusive(next, (n - 1) as nat);
        lemma_requests_while_busy(DispenserStatus::Dispensing, (n - 1) as nat);
        lemma_decisions_len(s, n);
        assert forall|i: int, j: int|
            0 <= i < j < n && all[i] == DispenseDecision::Accept implies all[j] == DispenseDecision::Busy by {
            assert(all[j] == rest[j - 1]);
            if i == 0 {
                assert(next == DispenserStatus::Dispensing);
            } else {
                assert(all[i] == rest[i - 1]);
            }
        }
        assert forall|i: int| 0 < i < n implies #[trigger] all[i] != DispenseDecision::Accept by {
            assert(all[i] == rest[i - 1]);
            if dispense_decision(s) == DispenseDecision::Accept {
                assert(next == DispenserStatus::Dispensing);
            } else {
                assert(next == s);
                if i > 1 {
                    assert(rest[i - 1] != DispenseDecision::Accept);
                } else {
                    assert(rest[0] == dispense_decision(next));
                }
            }
        }
    }
}

/// Cooldown enforcement: a successful run leaves the dispenser in `Cooldown`, where every
/// dispense request is answered busy; the end of the cooldown returns it to `Operational`,
/// where the next request is accepted.
pub proof fn lemma_cooldown_enforced(was_cancelled: bool, n: nat)
    ensures
        motor_outcome_status(true, was_cancelled) == DispenserStatus::Cooldown,
        forall|i: int| 0 <= i < n ==> #[trigger] decisions_of_requests(DispenserStatus::Cooldown, n)[i]
            == DispenseDecision::Busy,
        dispense_decision(DispenserStatus::Operational) == DispenseDecision::Accept,
{
    lemma_requests_while_busy(DispenserStatus::Cooldown, n);
}

/// Overcurrent interlock: a full window of readings whose current is above the limit
/// evaluates as over the limit, which signals and records the cancellation of the
/// dispense in flight (`signal_overcurrent`); its failed run then ends `Cancelled`
/// (`complete_dispense`), with no call to `cancel`.
pub proof fn lemma_overcurrent_interlock(window: Seq<PowerReading>, limit_ma: i32)
    requires
        window.len() > 0,
        forall|i: int| 0 <= i < window.len() ==> window[i].current_ma > limit_ma,
    ensures
        mean_current_exceeds(window, limit_ma as int),
        motor_outcome_status(false, true) == DispenserStatus::Cancelled,
{
    lemma_window_above_limit(window, limit_ma as int);
}

/// Tare round trip: after a tare over samples that all read `c`, the raw value `c` reads
/// 0 g, and so does any raw value within half a scale unit of it.
pub proof fn lemma_tare_round_trip(cal: WeightSensorCalibration, samples: Seq<i32>, c: i32, raw: i32)
    requires
        cal.wf(),
        cal.offset == 0,
        samples.len() > 0,
        forall|i: int| 0 <= i < samples.len() ==> samples[i] == c,
        raw == c || 2 * abs_int(raw - c) * cal.scale_denominator < cal.scale_numerator,
    ensures
        tared(cal, samples).tare_raw == c,
        grams_from_raw(raw, tared(cal, samples)) == 0,
{
    lemma_trimmed_mean_of_constant(samples, c);
    let t = tared(cal, samples);
    let d = raw - c;
    if t.scale_numerator != 0 {
        let n = d * cal.scale_denominator;
        let num = cal.scale_numerator as int;
        let den = cal.scale_denominator as int;
        if d >= 0 {
            assert(0 <= n && 2 * n < num) by (nonlinear_arith)
                requires n == d * den, d >= 0, den > 0, num > 0, d == 0 || 2 * d * den < num;
            assert((2 * n + num) / (2 * num) == 0) by (nonlinear_arith)
                requires 0 <= 2 * n < num;
        } else {
            assert(n < 0 && 2 * (-n) < num) by (nonlinear_arith)
                requires n == d * den, d < 0, den > 0, 2 * (-d) * den < num;
            assert((2 * (-n) + num) / (2 * num) == 0) by (nonlinear_arith)
                requires 0 <= 2 * (-n) < num;
        }
        assert(round_div(n, num) == 0);
    }
}

/// Scale round trip: after a tare at `tare_raw`, a scale calibration over samples that all
/// read `tare_raw + delta` with `known_mass_mg` milligrams on the load cell gives the scale
/// `1000 * |delta| / known_mass_mg` (1000 raw units over 500 g: 2 per gram); the scale is never
/// negative, also below the tare; and recomputing from the same samples gives the same
/// calibration.
pub proof fn lemma_scale_round_trip(cal: WeightSensorCalibration, samples: Seq<i32>, delta: int, known_mass_mg: u32)
    requires
        cal.wf(),
        known_mass_mg > 0,
        samples.len() > 0,
        i32::MIN <= cal.tare_raw + delta <= i32::MAX,
        forall|i: int| 0 <= i < samples.len() ==> samples[i] == cal.tare_raw + delta,
    ensures
        scaled(cal, samples, known_mass_mg).scale_numerator == abs_int(delta) * 1000,
        scaled(cal, samples, known_mass_mg).scale_denominator == known_mass_mg,
        scaled(cal, samples, known_mass_mg).tare_raw == cal.tare_raw,
        scaled(cal, samples, known_mass_mg).wf(),
        scaled(scaled(cal, samples, known_mass_mg), samples, known_mass_mg)
            == scaled(cal, samples, known_mass_mg),
{
    lemma_trimmed_mean_of_constant(samples, (cal.tare_raw + delta) as i32);
}

/// What a dispense hands to its background run: its number and a handle on its
/// cancellation signal.
pub struct DispenseTicket {
    pub id: u64,
    pub cancel_token: CancellationToken,
}

pub open spec fn next_ticket(c: u64) -> u64 {
    if c == u64::MAX {
        0
    } else {
        (c + 1) as u64
    }
}

/// The shared device state. Every task reaches it through one lock and keeps that lock
/// only for one of the methods below, none of which waits on hardware.
pub struct ApplicationState {
    pub status: DispenserStatus,
    /// Seconds since the Unix epoch.
    pub startup_time: u64,
    pub last_dispense_time: Option<u64>,
    pub last_error_msg: Option<String>,
    pub last_error_time: Option<u64>,
    pub last_step_index: Option<u32>,
    pub gpio_available: bool,
    pub motor: Motor,
    pub app_config: AppConfig,
    pub version: String,
    /// Name of the power sensor, when one was initialised.
    pub power_sensor: Option<String>,
    /// Name of the weight sensor, when one was initialised.
    pub weight_sensor: Option<String>,
    pub power_latest: PowerReading,
    pub weight_latest: WeightReading,
    pub calibration_in_progress: bool,
    pub calibration: WeightSensorCalibration,
    /// Present exactly while a dispense is in flight.
    pub motor_cancel_token: Option<CancellationToken>,
    /// Number of the latest accepted dispense.
    pub dispense_count: u64,
    /// Whether cancellation of the latest accepted dispense has been signalled, by
    /// `cancel` or by the overcurrent interlock.
    pub cancel_requested: bool,
}

impl ApplicationState {
    pub open spec fn wf(&self) -> bool {
        &&& (self.status == DispenserStatus::Dispensing) <==> self.motor_cancel_token is Some
        &&& (self.status == DispenserStatus::Calibrating) <==> self.calibration_in_progress
        &&& self.calibration.wf()
    }

    /// Whether the run with number `id` is the dispense in flight.
    pub open spec fn is_current_run(&self, id: u64) -> bool {
        id == self.dispense_count && self.status == DispenserStatus::Dispensing
    }

    /// Builds the state at startup. The initial status is `NoGpio` when the motor needs GPIO
    /// and none is available, else `Operational`. A loaded calibration is used when there
    /// is one and it is valid; otherwise scale 1, offset 0, tare 0.
    pub fn new(
        app_config: AppConfig,
        motor: Motor,
        gpio_available: bool,
        power_sensor: Option<String>,
        weight_sensor: Option<String>,
        loaded_calibration: Option<WeightSensorCalibration>,
        startup_time: u64,
        version: String,
    ) -> (r: Self)
        ensures
            r.wf(),
            r.status == (if motor_requires_gpio(motor) && !gpio_available {
                DispenserStatus::NoGpio
            } else {
                DispenserStatus::Operational
            }),
            r.calibration == (match loaded_calibration {
                Some(c) => if c.wf() { c } else { WeightSensorCalibration::default_spec() },
                None => WeightSensorCalibration::default_spec(),
            }),
            r.startup_time == startup_time,
            r.last_dispense_time is None,
            r.last_error_msg is None,
            r.last_error_time is None,
            r.last_step_index is None,
            r.gpio_available == gpio_available,
            r.motor == motor,
            r.app_config == app_config,
            r.version == version,
            r.power_sensor == power_sensor,
            r.weight_sensor == weight_sensor,
            r.power_latest == (PowerReading { bus_voltage_mv: 0, current_ma: 0, power_mw: 0 }),
            r.weight_latest == (WeightReading { grams: 0 }),
            !r.calibration_in_progress,
            r.motor_cancel_token is None,
            r.dispense_count == 0,
            !r.cancel_requested,
    {
        let status = if motor.requires_gpio() && !gpio_available {
            DispenserStatus::NoGpio
        } else {
            DispenserStatus::Operational
        };
        let calibration = match loaded_calibration {
            Some(c) => if c.scale_denominator > 0 { c } else { WeightSensorCalibration::new_default() },
            None => WeightSensorCalibration::new_default(),
        };
        ApplicationState {
            status,
            startup_time,
            last_dispense_time: None,
            last_error_msg: None,
            last_error_time: None,
            last_step_index: None,
            gpio_available,
            motor,
            app_config,
            version,
            power_sensor,
            weight_sensor,
            power_latest: PowerReading { bus_voltage_mv: 0, current_ma: 0, power_mw: 0 },
            weight_latest: WeightReading { grams: 0 },
            calibration_in_progress: false,
            calibration,
            motor_cancel_token: None,
            dispense_count: 0,
            cancel_requested: false,
        }
    }

    /// Validates a dispense request and, when accepted, moves to `Dispensing` in the same
    /// step and creates the run's cancellation signal. `Operational` and `Cancelled` accept;
    /// `Dispensing` and `Cooldown` answer busy; `Empty` and every other status answer that
    /// the hardware is unavailable. A rejection changes nothing.
    pub fn request_dispense(&mut self) -> (r: Result<DispenseTicket, ApiError>)
        requires
            old(self).wf(),
        ensures
            final(self).wf(),
            (dispense_decision(old(self).status) == DispenseDecision::Accept) <==> r is Ok,
            final(self).status == status_after_request(old(self).status),
            r matches Ok(t) ==> {
                &&& t.id == final(self).dispense_count
                &&& final(self).dispense_count == next_ticket(old(self).dispense_count)
                &&& final(self).motor_cancel_token is Some
                &&& *final(self) == (ApplicationState {
                    status: DispenserStatus::Dispensing,
                    motor_cancel_token: final(self).motor_cancel_token,
                    dispense_count: final(self).dispense_count,
                    cancel_requested: false,
                    ..*old(self)
                })
            },
            r matches Err(e) ==> is_dispense_rejection(old(self).status, e) && *final(self) == *old(self),
    {
        match self.status {
            DispenserStatus::Operational | DispenserStatus::Cancelled => {
                let token = CancellationToken::new();
                let handle = token.clone();
                let id = if self.dispense_count == u64::MAX { 0 } else { self.dispense_count + 1 };
                self.status = DispenserStatus::Dispensing;
                self.motor_cancel_token = Some(token);
                self.dispense_count = id;
                self.cancel_requested = false;
                Ok(DispenseTicket { id, cancel_token: handle })
            },
            DispenserStatus::Dispensing => Err(ApiError::Busy(String::from_str("Dispenser is already dispensing"))),
            DispenserStatus::Cooldown => Err(ApiError::Busy(String::from_str("Waiting for cooldown"))),
            DispenserStatus::Empty => Err(ApiError::Hardware(String::from_str("Dispenser is empty"))),
            _ => {
                let name = self.status.name();
                let text = String::from_str("Dispenser is not operational (current status: ")
                    .concat(name.as_str())
                    .concat(")");
                Err(ApiError::Hardware(text))
            },
        }
    }

    /// Applies the end of motor run `id`. Only the dispense in flight is affected: a
    /// successful run enters `Cooldown`; a failed one ends `Cancelled` when its cancellation
    /// was signalled and `Unknown` (with the error recorded) otherwise. The run's
    /// cancellation signal is dropped. Returns whether the cooldown is to be waited out.
    pub fn apply_motor_outcome(&mut self, id: u64, outcome: &Result<u32, String>, was_cancelled: bool, now: u64) -> (r: bool)
        requires
            old(self).wf(),
        ensures
            final(self).wf(),
            r == (old(self).is_current_run(id) && outcome is Ok),
            old(self).is_current_run(id) ==> *final(self) == (ApplicationState {
                status: motor_outcome_status(outcome is Ok, was_cancelled),
                motor_cancel_token: None,
                last_error_msg: match outcome {
                    Err(e) => if was_cancelled { old(self).last_error_msg } else { Some(*e) },
                    Ok(_) => old(self).last_error_msg,
                },
                last_error_time: match outcome {
                    Err(_) => if was_cancelled { old(self).last_error_time } else { Some(now) },
                    Ok(_) => old(self).last_error_time,
                },
                ..*old(self)
            }),
            !old(self).is_current_run(id) ==> *final(self) == *old(self),
    {
        if id != self.dispense_count {
            return false;
        }
        match self.status {
            DispenserStatus::Dispensing => {},
            _ => {
                return false;
            },
        }
        self.motor_cancel_token = None;
        match outcome {
            Ok(_) => {
                self.status = DispenserStatus::Cooldown;
                true
            },
            Err(e) => {
                if was_cancelled {
                    self.status = DispenserStatus::Cancelled;
                } else {
                    self.status = DispenserStatus::Unknown;
                    self.last_error_msg = Some(e.clone());
                    self.last_error_time = Some(now);
                }
                false
            },
        }
    }

    /// Ends motor run `ticket`. The run counts as cancelled when a cancellation was
    /// recorded (`cancel`, the overcurrent interlock) or its signal reports one. See
    /// `apply_motor_outcome`.
    pub fn complete_dispense(&mut self, ticket: &DispenseTicket, outcome: &Result<u32, String>, now: u64) -> (r: bool)
        requires
            old(self).wf(),
        ensures
            final(self).wf(),
            r == (old(self).is_current_run(ticket.id) && outcome is Ok),
            old(self).is_current_run(ticket.id) && outcome is Ok ==> *final(self) == (ApplicationState {
                status: DispenserStatus::Cooldown,
                motor_cancel_token: None,
                ..*old(self)
            }),
            old(self).is_current_run(ticket.id) && outcome is Err && old(self).cancel_requested
                ==> *final(self) == (ApplicationState {
                status: DispenserStatus::Cancelled,
                motor_cancel_token: None,
                ..*old(self)
            }),
            old(self).is_current_run(ticket.id) && outcome is Err && !old(self).cancel_requested ==> (
                *final(self) == (ApplicationState {
                    status: DispenserStatus::Cancelled,
                    motor_cancel_token: None,
                    ..*old(self)
                }) || *final(self) == (ApplicationState {
                    status: DispenserStatus::Unknown,
                    motor_cancel_token: None,
                    last_error_msg: Some(outcome->Err_0),
                    last_error_time: Some(now),
                    ..*old(self)
                })),
            !old(self).is_current_run(ticket.id) ==> *final(self) == *old(self),
    {
        let was_cancelled = self.cancel_requested || ticket.cancel_token.is_cancelled();
        self.apply_motor_outcome(ticket.id, outcome, was_cancelled, now)
    }

    /// Ends the cooldown of run `id`: back to `Operational`, recording when the dispense
    /// finished and the motor's last step index. Any other state is left alone.
    pub fn cooldown_finished(&mut self, id: u64, last_step_index: u32, now: u64) -> (r: bool)
        requires
            old(self).wf(),
        ensures
            final(self).wf(),
            r == (id == old(self).dispense_count && old(self).status == DispenserStatus::Cooldown),
            r ==> *final(self) == (ApplicationState {
                status: DispenserStatus::Operational,
                last_dispense_time: Some(now),
                last_step_index: Some(last_step_index),
                ..*old(self)
            }),
            !r ==> *final(self) == *old(self),
    {
        if id != self.dispense_count {
            return false;
        }
        match self.status {
            DispenserStatus::Cooldown => {
                self.status = DispenserStatus::Operational;
                self.last_dispense_time = Some(now);
                self.last_step_index = Some(last_step_index);
                true
            },
            _ => false,
        }
    }

    /// Cancels the dispense in flight: signals its cancellation and records that it did,
    /// sets `Cancelled` at once and drops the signal. Without a dispense in flight, fails and
    /// changes nothing.
    pub fn cancel(&mut self) -> (r: Result<(), ApiError>)
        requires
            old(self).wf(),
        ensures
            final(self).wf(),
            r is Ok <==> old(self).motor_cancel_token is Some,
            r is Ok ==> *final(self) == (ApplicationState {
                status: DispenserStatus::Cancelled,
                motor_cancel_token: None,
                cancel_requested: true,
                ..*old(self)
            }),
            r matches Err(e) ==> e matches ApiError::Hardware(m) && m@ == "No ongoing motor operation to cancel"@
                && *final(self) == *old(self),
    {
        match &self.motor_cancel_token {
            Some(token) => {
                token.cancel();
            },
            None => {
                return Err(ApiError::Hardware(String::from_str("No ongoing motor operation to cancel")));
            },
        }
        self.status = DispenserStatus::Cancelled;
        self.motor_cancel_token = None;
        self.cancel_requested = true;
        Ok(())
    }

    /// The overcurrent interlock: signals the cancellation of the dispense in flight, if
    /// any, and records that it did; the run then ends `Cancelled` (`complete_dispense`).
    /// Returns whether there was a dispense to cancel.
    pub fn signal_overcurrent(&mut self) -> (r: bool)
        ensures
            r == old(self).motor_cancel_token is Some,
            *final(self) == (ApplicationState {
                cancel_requested: old(self).cancel_requested || r,
                ..*old(self)
            }),
    {
        match &self.motor_cancel_token {
            Some(token) => {
                token.cancel();
            },
            None => {
                return false;
            },
        }
        self.cancel_requested = true;
        true
    }

    /// Starts a tare or scale calibration. Only `Operational` and `Cancelled` allow one;
    /// while another operation is under way the request is answered busy and changes
    /// nothing. Without a weight sensor the status becomes `CalibrationFailed` and the
    /// in-progress flag stays clear. Otherwise the status becomes `Calibrating` and the
    /// flag, which pauses the weight loop, is set.
    pub fn begin_calibration(&mut self) -> (r: Result<(), ApiError>)
        requires
            old(self).wf(),
        ensures
            final(self).wf(),
            operation_in_progress(old(self).status) ==> (r matches Err(e) && e matches ApiError::Busy(m)
                && m@ == "Operation in progress"@ && *final(self) == *old(self)),
            !operation_in_progress(old(self).status) && !calibration_allowed(old(self).status) ==> (r matches Err(e)
                && e matches ApiError::Hardware(m) && m@ == not_operational_text(old(self).status)
                && *final(self) == *old(self)),
            calibration_allowed(old(self).status) && old(self).weight_sensor is None ==> (r matches Err(e)
                && e matches ApiError::Hardware(m) && m@ == "No weight sensor available"@
                && *final(self) == (ApplicationState { status: DispenserStatus::CalibrationFailed, ..*old(self) })),
            calibration_allowed(old(self).status) && old(self).weight_sensor is Some ==> r is Ok
                && *final(self) == (ApplicationState {
                    status: DispenserStatus::Calibrating,
                    calibration_in_progress: true,
                    ..*old(self)
                }),
    {
        match self.status {
            DispenserStatus::Dispensing | DispenserStatus::Cooldown | DispenserStatus::Calibrating => {
                return Err(ApiError::Busy(String::from_str("Operation in progress")));
            },
            DispenserStatus::Operational | DispenserStatus::Cancelled => {},
            _ => {
                let name = self.status.name();
                let text = String::from_str("Dispenser is not operational (current status: ")
                    .concat(name.as_str())
                    .concat(")");
                return Err(ApiError::Hardware(text));
            },
        }
        match &self.weight_sensor {
            None => {
                self.status = DispenserStatus::CalibrationFailed;
                Err(ApiError::Hardware(String::from_str("No weight sensor available")))
            },
            Some(_) => {
                self.status = DispenserStatus::Calibrating;
                self.calibration_in_progress = true;
                Ok(())
            },
        }
    }

    /// Starts a scale calibration with a known mass of `known_mass_mg` milligrams. A zero
    /// mass is rejected at once and changes nothing; otherwise as `begin_calibration`.
    pub fn begin_scale_calibration(&mut self, known_mass_mg: u32) -> (r: Result<(), ApiError>)
        requires
            old(self).wf(),
        ensures
            final(self).wf(),
            known_mass_mg == 0 ==> (r matches Err(e) && e matches ApiError::BadRequest(m)
                && m@ == "Known mass must be positive"@ && *final(self) == *old(self)),
            known_mass_mg > 0 && operation_in_progress(old(self).status) ==> (r matches Err(e)
                && e matches ApiError::Busy(m) && m@ == "Operation in progress"@ && *final(self) == *old(self)),
            known_mass_mg > 0 && !operation_in_progress(old(self).status) && !calibration_allowed(old(self).status)
                ==> (r matches Err(e) && e matches ApiError::Hardware(m) && m@ == not_operational_text(old(self).status)
                && *final(self) == *old(self)),
            known_mass_mg > 0 && calibration_allowed(old(self).status) && old(self).weight_sensor is None
                ==> (r matches Err(e) && e matches ApiError::Hardware(m) && m@ == "No weight sensor available"@
                && *final(self) == (ApplicationState { status: DispenserStatus::CalibrationFailed, ..*old(self) })),
            known_mass_mg > 0 && calibration_allowed(old(self).status) && old(self).weight_sensor is Some ==> r is Ok
                && *final(self) == (ApplicationState {
                    status: DispenserStatus::Calibrating,
                    calibration_in_progress: true,
                    ..*old(self)
                }),
    {
        if known_mass_mg == 0 {
            return Err(ApiError::BadRequest(String::from_str("Known mass must be positive")));
        }
        self.begin_calibration()
    }

    /// Completes a tare with the collected raw samples: their trimmed mean becomes the new
    /// `tare_raw` and the status returns to `Operational`. With no samples the status becomes
    /// `CalibrationFailed`. The in-progress flag is cleared either way. Outside a
    /// calibration nothing changes.
    pub fn finish_tare(&mut self, samples: &mut Vec<i32>) -> (r: Result<WeightSensorCalibration, ApiError>)
        requires
            old(self).wf(),
        ensures
            final(self).wf(),
            old(self).status != DispenserStatus::Calibrating ==> (r matches Err(e) && e is Internal
                && *final(self) == *old(self)),
            old(self).status == DispenserStatus::Calibrating && old(samples).len() == 0 ==> (r matches Err(e)
                && e matches ApiError::Hardware(m) && m@ == "No weight samples collected"@
                && *final(self) == (ApplicationState {
                    status: DispenserStatus::CalibrationFailed,
                    calibration_in_progress: false,
                    ..*old(self)
                })),
            old(self).status == DispenserStatus::Calibrating && old(samples).len() > 0 ==> {
                &&& r == Ok::<WeightSensorCalibration, ApiError>(tared(old(self).calibration, old(samples)@))
                &&& *final(self) == (ApplicationState {
                    status: DispenserStatus::Operational,
                    calibration_in_progress: false,
                    calibration: tared(old(self).calibration, old(samples)@),
                    ..*old(self)
                })
            },
            final(samples)@.to_multiset() == old(samples)@.to_multiset(),
    {
        proof {
            broadcast use vstd::seq_lib::group_to_multiset_ensures;
            crate::weight_monitor::lemma_sorted_same_multiset(samples@);
        }
        match self.status {
            DispenserStatus::Calibrating => {},
            _ => {
                return Err(ApiError::Internal(String::from_str("No calibration in progress")));
            },
        }
        self.calibration_in_progress = false;
        if samples.len() == 0 {
            self.status = DispenserStatus::CalibrationFailed;
            return Err(ApiError::Hardware(String::from_str("No weight samples collected")));
        }
        let mean = calculate_trimmed_mean(samples);
        self.calibration.tare_raw = mean;
        self.status = DispenserStatus::Operational;
        Ok(self.calibration)
    }

    /// Completes a scale calibration with the collected raw samples, taken with
    /// a known mass of `known_mass_mg` milligrams on the load cell: the scale becomes
    /// `1000 * |trimmed_mean - tare_raw| / known_mass_mg` raw units per gram, never negative,
    /// and the status returns
    /// to `Operational`. A zero mass is rejected (status back to `Operational`, calibration
    /// unchanged); no samples give `CalibrationFailed`. The in-progress flag is cleared
    /// either way. Outside a calibration nothing changes.
    pub fn finish_scale_calibration(&mut self, samples: &mut Vec<i32>, known_mass_mg: u32) -> (r: Result<WeightSensorCalibration, ApiError>)
        requires
            old(self).wf(),
        ensures
            final(self).wf(),
            old(self).status != DispenserStatus::Calibrating ==> (r matches Err(e) && e is Internal
                && *final(self) == *old(self)),
            old(self).status == DispenserStatus::Calibrating && known_mass_mg == 0 ==> (r matches Err(e)
                && e matches ApiError::BadRequest(m) && m@ == "Known mass must be positive"@
                && *final(self) == (ApplicationState {
                    status: DispenserStatus::Operational,
                    calibration_in_progress: false,
                    ..*old(self)
                })),
            old(self).status == DispenserStatus::Calibrating && known_mass_mg > 0 && old(samples).len() == 0
                ==> (r matches Err(e) && e matches ApiError::Hardware(m) && m@ == "No weight samples collected"@
                && *final(self) == (ApplicationState {
                    status: DispenserStatus::CalibrationFailed,
                    calibration_in_progress: false,
                    ..*old(self)
                })),
            old(self).status == DispenserStatus::Calibrating && known_mass_mg > 0 && old(samples).len() > 0 ==> {
                &&& r == Ok::<WeightSensorCalibration, ApiError>(scaled(old(self).calibration, old(samples)@, known_mass_mg))
                &&& *final(self) == (ApplicationState {
                    status: DispenserStatus::Operational,
                    calibration_in_progress: false,
                    calibration: scaled(old(self).calibration, old(samples)@, known_mass_mg),
                    ..*old(self)
                })
            },
            final(samples)@.to_multiset() == old(samples)@.to_multiset(),
    {
        proof {
            broadcast use vstd::seq_lib::group_to_multiset_ensures;
            crate::weight_monitor::lemma_sorted_same_multiset(samples@);
        }
        match self.status {
            DispenserStatus::Calibrating => {},
            _ => {
                return Err(ApiError::Internal(String::from_str("No calibration in progress")));
            },
        }
        self.calibration_in_progress = false;
        if known_mass_mg == 0 {
            self.status = DispenserStatus::Operational;
            return Err(ApiError::BadRequest(String::from_str("Known mass must be positive")));
        }
        if samples.len() == 0 {
            self.status = DispenserStatus::CalibrationFailed;
            return Err(ApiError::Hardware(String::from_str("No weight samples collected")));
        }
        let mean = calculate_trimmed_mean(samples);
        let diff: i64 = mean as i64 - self.calibration.tare_raw as i64;
        let magnitude: u64 = if diff < 0 { (-diff) as u64 } else { diff as u64 };
        proof {
            assert(magnitude <= 0x1_0000_0000);
        }
        self.calibration.scale_numerator = magnitude * 1000;
        self.calibration.scale_denominator = known_mass_mg;
        self.status = DispenserStatus::Operational;
        Ok(self.calibration)
    }

    /// Publishes the latest power reading (a single slot: the previous value is replaced).
    pub fn publish_power(&mut self, reading: PowerReading)
        ensures
            *final(self) == (ApplicationState { power_latest: reading, ..*old(self) }),
    {
        self.power_latest = reading;
    }

    /// Publishes the latest weight reading (a single slot: the previous value is replaced).
    pub fn publish_weight(&mut self, reading: WeightReading)
        ensures
            *final(self) == (ApplicationState { weight_latest: reading, ..*old(self) }),
    {
        self.weight_latest = reading;
    }

    /// Whether the weight loop skips its sample: a calibration is collecting samples.
    pub fn weight_sampling_paused(&self) -> (r: bool)
        ensures
            r == self.calibration_in_progress,
    {
        self.calibration_in_progress
    }

    /// A view of the state for observers at time `now` (seconds since the Unix epoch).
    pub fn status_snapshot(&self, now: u64) -> (r: StatusResponse)
        ensures
            r.uptime_seconds == (if now >= self.startup_time { now - self.startup_time } else { 0 }),
            r.dispenser_status@ == status_name(self.status),
            r.gpio_available == self.gpio_available,
            r.motor_operational == self.gpio_available,
            r.treats_available == self.gpio_available,
            r.last_dispensed == self.last_dispense_time,
            r.last_error_msg == self.last_error_msg,
            r.last_error_time == self.last_error_time,
            r.version == self.version,
            r.motor@ == motor_name(self.motor),
            r.motor_voltage_mv == self.power_latest.bus_voltage_mv,
            r.motor_current_ma == self.power_latest.current_ma,
            r.motor_power_mw == self.power_latest.power_mw,
            r.motor_power_sensor == self.power_sensor,
            r.remaining_treats_grams == self.weight_latest.grams,
            r.calibration == self.calibration,
    {
        let last_error_msg = match &self.last_error_msg {
            Some(m) => Some(m.clone()),
            None => None,
        };
        let motor_power_sensor = match &self.power_sensor {
            Some(m) => Some(m.clone()),
            None => None,
        };
        StatusResponse {
            gpio_available: self.gpio_available,
            motor_operational: self.gpio_available,
            treats_available: self.gpio_available,
            last_dispensed: self.last_dispense_time,
            uptime_seconds: if now >= self.startup_time { now - self.startup_time } else { 0 },
            dispenser_status: self.status.name(),
            last_error_msg,
            last_error_time: self.last_error_time,
            version: self.version.clone(),
            motor: self.motor.name(),
            motor_voltage_mv: self.power_latest.bus_voltage_mv,
            motor_current_ma: self.power_latest.current_ma,
            motor_power_mw: self.power_latest.power_mw,
            motor_power_sensor,
            remaining_treats_grams: self.weight_latest.grams,
            calibration: self.calibration,
        }
    }

    /// Records an error message and when it happened.
    pub fn record_error(&mut self, msg: String, now: u64)
        ensures
            *final(self) == (ApplicationState {
                last_error_msg: Some(msg),
                last_error_time: Some(now),
                ..*old(self)
            }),
    {
        self.last_error_msg = Some(msg);
        self.last_error_time = Some(now);
    }
}

} // verus!
