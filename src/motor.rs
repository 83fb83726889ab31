use vstd::prelude::*;
use crate::rounding::{round_div, round_div_i128};
use rand::Rng;

verus! {

/// Microstepping resolution of a stepper driver.
#[derive(Clone, Copy, Debug, PartialEq, Eq, Structural)]
pub enum StepMode {
    Full,
    Half,
    Quarter,
    Eighth,
    Sixteenth,
}

pub open spec fn step_mode_name(m: StepMode) -> Seq<char> {
    match m {
        StepMode::Full => "Full"@,
        StepMode::Half => "Half"@,
        StepMode::Quarter => "Quarter"@,
        StepMode::Eighth => "Eighth"@,
        StepMode::Sixteenth => "Sixteenth"@,
    }
}

impl StepMode {
    pub fn name(&self) -> (r: String)
        ensures
            r@ == step_mode_name(*self),
    {
        match self {
            StepMode::Full => String::from_str("Full"),
            StepMode::Half => String::from_str("Half"),
            StepMode::Quarter => String::from_str("Quarter"),
            StepMode::Eighth => String::from_str("Eighth"),
            StepMode::Sixteenth => String::from_str("Sixteenth"),
        }
    }
}

/// Direction of rotation.
#[derive(Clone, Copy, Debug, PartialEq, Eq, Structural)]
pub enum Direction {
    Clockwise,
    CounterClockwise,
}

/// Steps for a rotation of `degrees`: `round(degrees / 360 * steps_per_rotation)`.
pub open spec fn steps_for_degrees_spec(degrees: int, steps_per_rotation: int) -> int {
    round_div(degrees * steps_per_rotation, 360)
}

/// Number of steps for a rotation by whole degrees, saturated to `u32::MAX`.
pub fn steps_for_degrees(degrees: u32, steps_per_rotation: u32) -> (r: u32)
    ensures
        r == (if steps_for_degrees_spec(degrees as int, steps_per_rotation as int) > u32::MAX {
            u32::MAX as int
        } else {
            steps_for_degrees_spec(degrees as int, steps_per_rotation as int)
        }),
{
    proof {
        assert(0 <= (degrees as int) * (steps_per_rotation as int) <= 0xffff_ffff * 0xffff_ffff)
            by (nonlinear_arith) requires 0 <= degrees <= 0xffff_ffff, 0 <= steps_per_rotation <= 0xffff_ffff;
    }
    let product = (degrees as i128) * (steps_per_rotation as i128);
    let s = round_div_i128(product, 360);
    proof {
        assert(s >= 0) by (nonlinear_arith) requires s == (2 * product + 360) / 720, product >= 0;
    }
    if s > u32::MAX as i128 {
        u32::MAX
    } else {
        s as u32
    }
}

/// Index into a step sequence of length `len` after `step_count` steps, counted from 0:
/// the index of the last step taken, or 0 when no step was taken.
pub open spec fn last_step_index_spec(step_count: int, len: int) -> int {
    if step_count == 0 {
        0
    } else {
        (step_count - 1) % len
    }
}

pub fn last_step_index(step_count: u32, len: u32) -> (r: u32)
    requires
        len > 0,
    ensures
        r == last_step_index_spec(step_count as int, len as int),
        r < len,
{
    if step_count == 0 {
        0
    } else {
        (step_count - 1) % len
    }
}

/// Coil pattern for step number `step` (counted from 0) of a run cycling through `sequence`.
pub fn phase_for_step(sequence: &Vec<u8>, step: u32) -> (r: u8)
    requires
        sequence.len() > 0,
        sequence.len() <= u32::MAX,
    ensures
        r == sequence@[step as int % sequence.len() as int],
{
    let len = sequence.len() as u32;
    sequence[(step % len) as usize]
}

/// What every stepper backend tells about itself.
pub trait StepperMotor {
    /// Steps per full rotation in a step mode.
    spec fn steps_per_rotation(&self, step_mode: StepMode) -> int;

    /// The backend's name.
    spec fn motor_name(&self) -> Seq<char>;

    /// Whether the backend drives GPIO pins.
    spec fn needs_gpio(&self) -> bool;

    fn get_step_count_for_full_rotation(&self, step_mode: &StepMode) -> (r: u32)
        ensures
            r == self.steps_per_rotation(*step_mode),
    ;

    fn get_name(&self) -> (r: String)
        ensures
            r@ == self.motor_name(),
    ;

    fn requires_gpio(&self) -> (r: bool)
        ensures
            r == self.needs_gpio(),
    ;
}

/// Steps per rotation of the geared 28BYJ-48 motor.
pub open spec fn byj48_steps_per_rotation(m: StepMode) -> int {
    match m {
        StepMode::Full => 2048,
        StepMode::Half => 4096,
        StepMode::Quarter => 8192,
        StepMode::Eighth => 16384,
        StepMode::Sixteenth => 32768,
    }
}

/// Coil patterns of the 28BYJ-48 driven clockwise: bit `i` of a pattern energises coil `i`.
/// Full steps energise two coils at once; half steps alternate one and two.
pub open spec fn byj48_clockwise_sequence(m: StepMode) -> Seq<u8> {
    match m {
        StepMode::Full => seq![3u8, 6u8, 12u8, 9u8],
        _ => seq![1u8, 3u8, 2u8, 6u8, 4u8, 12u8, 8u8, 9u8],
    }
}

/// The coil patterns for a direction: counter-clockwise runs the clockwise table backwards.
pub open spec fn byj48_sequence(m: StepMode, d: Direction) -> Seq<u8> {
    let cw = byj48_clockwise_sequence(m);
    match d {
        Direction::Clockwise => cw,
        Direction::CounterClockwise => Seq::new(cw.len(), |i: int| cw[cw.len() - 1 - i]),
    }
}

/// Whether the 28BYJ-48 driver supports a step mode.
pub open spec fn byj48_supports(m: StepMode) -> bool {
    m == StepMode::Full || m == StepMode::Half
}

/// The 28BYJ-48 unipolar stepper, driven through four GPIO coils.
#[derive(Clone, Copy)]
pub struct Stepper28BYJ48 {}

impl Stepper28BYJ48 {
    pub fn new() -> (r: Self) {
        Stepper28BYJ48 {}
    }

    /// Coil patterns to cycle through for a run, in order.
    pub fn step_sequence(&self, step_mode: &StepMode, direction: &Direction) -> (r: Result<Vec<u8>, String>)
        ensures
            byj48_supports(*step_mode) <==> r is Ok,
            r matches Ok(v) ==> v@ == byj48_sequence(*step_mode, *direction),
            r matches Err(m) ==> m@ == "Unsupported step mode"@,
    {
        let cw: Vec<u8> = match step_mode {
            StepMode::Full => vec![3u8, 6u8, 12u8, 9u8],
            StepMode::Half => vec![1u8, 3u8, 2u8, 6u8, 4u8, 12u8, 8u8, 9u8],
            _ => {
                return Err(String::from_str("Unsupported step mode"));
            },
        };
        proof {
            assert(cw@ =~= byj48_clockwise_sequence(*step_mode));
        }
        match direction {
            Direction::Clockwise => Ok(cw),
            Direction::CounterClockwise => {
                let n = cw.len();
                let mut out: Vec<u8> = Vec::new();
                let mut i: usize = 0;
                while i < n
                    invariant
                        0 <= i <= n,
                        n == cw.len(),
                        out@ =~= Seq::new(i as nat, |j: int| cw@[n - 1 - j]),
                    decreases n - i,
                {
                    out.push(cw[n - 1 - i]);
                    i = i + 1;
                }
                Ok(out)
            },
        }
    }

    /// Pause between steps: half steps 1 ms; full steps 2 ms, since two coils are
    /// energised and need longer to avoid overheating.
    pub fn delay_between_steps_ms(&self, step_mode: &StepMode) -> (r: Option<u64>)
        ensures
            r == (match *step_mode {
                StepMode::Half => Some(1u64),
                StepMode::Full => Some(2u64),
                _ => None,
            }),
    {
        match step_mode {
            StepMode::Half => Some(1),
            StepMode::Full => Some(2),
            _ => None,
        }
    }
}

impl StepperMotor for Stepper28BYJ48 {
    open spec fn steps_per_rotation(&self, step_mode: StepMode) -> int {
        byj48_steps_per_rotation(step_mode)
    }

    open spec fn motor_name(&self) -> Seq<char> {
        "Stepper28BYJ48"@
    }

    open spec fn needs_gpio(&self) -> bool {
        true
    }

    fn get_step_count_for_full_rotation(&self, step_mode: &StepMode) -> (r: u32) {
        match step_mode {
            StepMode::Full => 2048,
            StepMode::Half => 4096,
            StepMode::Quarter => 8192,
            StepMode::Eighth => 16384,
            StepMode::Sixteenth => 32768,
        }
    }

    fn get_name(&self) -> (r: String) {
        String::from_str("Stepper28BYJ48")
    }

    fn requires_gpio(&self) -> (r: bool) {
        true
    }
}

/// Pin assignment and timing of the NEMA 14 driver board.
#[derive(Clone, Copy, Debug, PartialEq, Eq, Structural)]
pub struct Nema14Config {
    pub dir_pin: u8,
    pub step_pin: u8,
    pub sleep_pin: u8,
    pub reset_pin: u8,
    pub enable_pin: u8,
    /// Half period of a step pulse, in microseconds.
    pub step_speed_us: Option<u64>,
}

/// Step pulse half period used when none is configured.
pub const NEMA14_STEP_SPEED_US_DEFAULT: u64 = 1000;

impl Nema14Config {
    pub fn step_speed_us_or_default(&self) -> (r: u64)
        ensures
            r == (match self.step_speed_us {
                Some(v) => v,
                None => NEMA14_STEP_SPEED_US_DEFAULT,
            }),
    {
        match self.step_speed_us {
            Some(v) => v,
            None => NEMA14_STEP_SPEED_US_DEFAULT,
        }
    }
}

impl Default for Nema14Config {
    fn default() -> (r: Self)
        ensures
            r.dir_pin == 26 && r.step_pin == 19 && r.sleep_pin == 13 && r.reset_pin == 6
                && r.enable_pin == 17 && r.step_speed_us.is_none(),
    {
        Nema14Config { dir_pin: 26, step_pin: 19, sleep_pin: 13, reset_pin: 6, enable_pin: 17, step_speed_us: None }
    }
}

/// Steps per rotation of the NEMA 14 (1.8 degrees per step).
pub const NEMA14_STEPS_PER_ROTATION: u32 = 200;

/// Fewest steps between two reversals of the NEMA 14's direction pin.
pub const JITTER_MIN_STEPS: u32 = 110;

/// Most steps between two reversals of the NEMA 14's direction pin (one rotation).
pub const JITTER_MAX_STEPS: u32 = 200;

/// Relies on rand::rng() and rand::Rng::random_range over an inclusive range, which
/// returns a value inside the range and panics only on an empty one.
#[verifier::external_body]
fn random_in_range(low: u32, high: u32) -> (r: u32)
    requires
        low <= high,
    ensures
        low <= r <= high,
{
    rand::rng().random_range(low..=high)
}

/// Periodic reversal of the direction pin during a NEMA 14 run, which keeps treats from
/// jamming: after a random number of steps in `[JITTER_MIN_STEPS, JITTER_MAX_STEPS]` the
/// direction flips and a new count is drawn.
pub struct DirectionJitter {
    steps_since_toggle: u32,
    toggle_after: u32,
    dir_high: bool,
}

impl DirectionJitter {
    pub closed spec fn steps_since_toggle(&self) -> int {
        self.steps_since_toggle as int
    }

    pub closed spec fn toggle_after(&self) -> int {
        self.toggle_after as int
    }

    /// Level of the direction pin: high for clockwise.
    pub closed spec fn dir_high(&self) -> bool {
        self.dir_high
    }

    pub open spec fn wf(&self) -> bool {
        &&& JITTER_MIN_STEPS <= self.toggle_after() <= JITTER_MAX_STEPS
        &&& 0 <= self.steps_since_toggle() < self.toggle_after()
    }

    pub fn new(direction: &Direction) -> (r: Self)
        ensures
            r.wf(),
            r.steps_since_toggle() == 0,
            r.dir_high() == (*direction == Direction::Clockwise),
    {
        let high = match direction {
            Direction::Clockwise => true,
            Direction::CounterClockwise => false,
        };
        DirectionJitter {
            steps_since_toggle: 0,
            toggle_after: random_in_range(JITTER_MIN_STEPS, JITTER_MAX_STEPS),
            dir_high: high,
        }
    }

    pub fn is_dir_high(&self) -> (r: bool)
        ensures
            r == self.dir_high(),
    {
        self.dir_high
    }

    /// Accounts for one step. Returns whether the direction pin flips before this step.
    pub fn advance(&mut self) -> (r: bool)
        requires
            old(self).wf(),
        ensures
            final(self).wf(),
            r == (old(self).steps_since_toggle() + 1 == old(self).toggle_after()),
            r ==> final(self).dir_high() == !old(self).dir_high() && final(self).steps_since_toggle() == 0,
            !r ==> final(self).dir_high() == old(self).dir_high()
                && final(self).steps_since_toggle() == old(self).steps_since_toggle() + 1
                && final(self).toggle_after() == old(self).toggle_after(),
    {
        self.steps_since_toggle = self.steps_since_toggle + 1;
        if self.steps_since_toggle == self.toggle_after {
            self.dir_high = !self.dir_high;
            self.steps_since_toggle = 0;
            self.toggle_after = random_in_range(JITTER_MIN_STEPS, JITTER_MAX_STEPS);
            true
        } else {
            false
        }
    }
}

/// The NEMA 14 bipolar stepper behind a step/direction driver.
#[derive(Clone, Copy)]
pub struct StepperNema14 {
    pub config: Nema14Config,
}

impl StepperNema14 {
    pub fn new(config: Nema14Config) -> (r: Self)
        ensures
            r.config == config,
    {
        StepperNema14 { config }
    }

    /// The driver takes full steps only.
    pub fn check_step_mode(&self, step_mode: &StepMode) -> (r: Result<(), String>)
        ensures
            r is Ok <==> *step_mode == StepMode::Full,
            r matches Err(m) ==> m@ == "Unsupported step mode for NEMA14"@,
    {
        match step_mode {
            StepMode::Full => Ok(()),
            _ => Err(String::from_str("Unsupported step mode for NEMA14")),
        }
    }
}

impl StepperMotor for StepperNema14 {
    open spec fn steps_per_rotation(&self, step_mode: StepMode) -> int {
        NEMA14_STEPS_PER_ROTATION as int
    }

    open spec fn motor_name(&self) -> Seq<char> {
        "StepperNema14"@
    }

    open spec fn needs_gpio(&self) -> bool {
        true
    }

    fn get_step_count_for_full_rotation(&self, step_mode: &StepMode) -> (r: u32) {
        NEMA14_STEPS_PER_ROTATION
    }

    fn get_name(&self) -> (r: String) {
        String::from_str("StepperNema14")
    }

    fn requires_gpio(&self) -> (r: bool) {
        true
    }
}

/// A motor that drives no hardware, for tests and development.
#[derive(Clone, Copy)]
pub struct StepperMock {}

impl StepperMock {
    pub fn new() -> (r: Self) {
        StepperMock {}
    }
}

impl StepperMotor for StepperMock {
    open spec fn steps_per_rotation(&self, step_mode: StepMode) -> int {
        2048
    }

    open spec fn motor_name(&self) -> Seq<char> {
        "StepperMock"@
    }

    open spec fn needs_gpio(&self) -> bool {
        false
    }

    fn get_step_count_for_full_rotation(&self, step_mode: &StepMode) -> (r: u32) {
        2048
    }

    fn get_name(&self) -> (r: String) {
        String::from_str("StepperMock")
    }

    fn requires_gpio(&self) -> (r: bool) {
        false
    }
}

} // verus!
