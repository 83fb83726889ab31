use vstd::prelude::*;
use crate::rounding::{round_div, round_div_i128};

verus! {

/// Conversion parameters of the load cell. The scale, in raw units per gram, is the
/// fraction `scale_numerator / scale_denominator`; readings are taken relative to
/// `tare_raw + offset`.
#[derive(Clone, Copy, Debug, PartialEq, Eq, Structural)]
pub struct WeightSensorCalibration {
    pub scale_numerator: u64,
    pub scale_denominator: u32,
    pub offset: i32,
    pub tare_raw: i32,
}

impl WeightSensorCalibration {
    /// The scale is a fraction with a positive denominator, so it is never negative.
    pub open spec fn wf(&self) -> bool {
        self.scale_denominator > 0
    }

    /// Scale 1 raw unit per gram, no offset, tare 0.
    pub open spec fn default_spec() -> Self {
        WeightSensorCalibration { scale_numerator: 1, scale_denominator: 1, offset: 0, tare_raw: 0 }
    }

    /// Scale 1 raw unit per gram, no offset, tare 0.
    pub fn new_default() -> (r: Self)
        ensures
            r.wf(),
            r == Self::default_spec(),
    {
        WeightSensorCalibration { scale_numerator: 1, scale_denominator: 1, offset: 0, tare_raw: 0 }
    }
}

impl Default for WeightSensorCalibration {
    fn default() -> (r: Self)
        ensures
            r.wf(),
            r == Self::default_spec(),
    {
        Self::new_default()
    }
}

/// One sample of the power sensor, in millivolts, milliamperes and milliwatts.
#[derive(Clone, Copy, Debug, PartialEq, Eq, Structural)]
pub struct PowerReading {
    pub bus_voltage_mv: i32,
    pub current_ma: i32,
    pub power_mw: i32,
}

impl PowerReading {
    /// The placeholder reading for "no value": -1 V, -1 A, -1 W.
    pub fn dummy() -> (r: Self)
        ensures
            r.bus_voltage_mv == -1000,
            r.current_ma == -1000,
            r.power_mw == -1000,
    {
        PowerReading { bus_voltage_mv: -1000, current_ma: -1000, power_mw: -1000 }
    }
}

impl Default for PowerReading {
    fn default() -> (r: Self)
        ensures
            r.bus_voltage_mv == 0,
            r.current_ma == 0,
            r.power_mw == 0,
    {
        PowerReading { bus_voltage_mv: 0, current_ma: 0, power_mw: 0 }
    }
}

/// Largest current, in milliamperes, that a power sensor reports as realistic.
pub const MAX_REALISTIC_CURRENT_MA: i32 = 2000;

/// Power in milliwatts of a bus voltage (mV) and a current (mA), rounded.
pub open spec fn power_mw_of(bus_voltage_mv: int, current_ma: int) -> int {
    round_div(bus_voltage_mv * current_ma, 1000)
}

/// Builds a power reading from a bus voltage and a measured current: the current is
/// clamped to `[0, 2 A]` and the power is their product.
pub fn power_reading_from_measurement(bus_voltage_mv: u16, measured_current_ma: i32) -> (r: PowerReading)
    ensures
        r.bus_voltage_mv == bus_voltage_mv,
        r.current_ma == (if measured_current_ma < 0 {
            0
        } else if measured_current_ma > MAX_REALISTIC_CURRENT_MA {
            MAX_REALISTIC_CURRENT_MA
        } else {
            measured_current_ma
        }),
        r.power_mw == power_mw_of(r.bus_voltage_mv as int, r.current_ma as int),
{
    let current: i32 = if measured_current_ma < 0 {
        0
    } else if measured_current_ma > MAX_REALISTIC_CURRENT_MA {
        MAX_REALISTIC_CURRENT_MA
    } else {
        measured_current_ma
    };
    proof {
        assert(0 <= (bus_voltage_mv as int) * (current as int) <= 65535 * 2000) by (nonlinear_arith)
            requires 0 <= bus_voltage_mv <= 65535, 0 <= current <= 2000;
    }
    let product = (bus_voltage_mv as i128) * (current as i128);
    let p = round_div_i128(product, 1000);
    proof {
        assert(0 <= p <= 65535 * 2000) by (nonlinear_arith)
            requires p == (2 * product + 1000) / 2000, 0 <= product <= 65535 * 2000;
    }
    PowerReading { bus_voltage_mv: bus_voltage_mv as i32, current_ma: current, power_mw: p as i32 }
}

/// One weight value, in grams.
#[derive(Clone, Copy, Debug, PartialEq, Eq, Structural)]
pub struct WeightReading {
    pub grams: i32,
}

impl WeightReading {
    /// The placeholder reading for "no value".
    pub fn dummy() -> (r: Self)
        ensures
            r.grams == -1,
    {
        WeightReading { grams: -1 }
    }
}

impl Default for WeightReading {
    fn default() -> (r: Self)
        ensures
            r.grams == 0,
    {
        WeightReading { grams: 0 }
    }
}

/// Clamps an integer into the range of `i32`.
pub open spec fn clamp_i32(x: int) -> int {
    if x < i32::MIN {
        i32::MIN as int
    } else if x > i32::MAX {
        i32::MAX as int
    } else {
        x
    }
}

/// Grams for a raw load-cell value: `round((raw - tare_raw - offset) / scale)`, saturated to
/// the range of `i32`. With a zero scale the quotient is unbounded: it saturates by the sign
/// of the difference, and a zero difference gives 0. Rounding to an integer leaves no
/// magnitude below 1 g other than 0.
pub open spec fn grams_from_raw(raw: i32, cal: WeightSensorCalibration) -> int {
    let diff = raw - cal.tare_raw - cal.offset;
    if cal.scale_numerator == 0 {
        if diff > 0 {
            i32::MAX as int
        } else if diff < 0 {
            i32::MIN as int
        } else {
            0
        }
    } else {
        clamp_i32(round_div(diff * cal.scale_denominator, cal.scale_numerator as int))
    }
}

/// Applies a calibration to a raw load-cell value.
pub fn weight_from_raw(raw: i32, calibration: &WeightSensorCalibration) -> (r: WeightReading)
    ensures
        r.grams == grams_from_raw(raw, *calibration),
{
    let diff: i64 = raw as i64 - calibration.tare_raw as i64 - calibration.offset as i64;
    if calibration.scale_numerator == 0 {
        let g: i32 = if diff > 0 {
            i32::MAX
        } else if diff < 0 {
            i32::MIN
        } else {
            0
        };
        return WeightReading { grams: g };
    }
    proof {
        let d = diff as int;
        let den = calibration.scale_denominator as int;
        assert(d * den <= 0x2_0000_0000 * 0x1_0000_0000) by (nonlinear_arith)
            requires -0x2_0000_0000 <= d <= 0x2_0000_0000, 0 <= den <= 0x1_0000_0000 - 1;
        assert(-0x2_0000_0000 * 0x1_0000_0000 <= d * den) by (nonlinear_arith)
            requires -0x2_0000_0000 <= d <= 0x2_0000_0000, 0 <= den <= 0x1_0000_0000 - 1;
    }
    let scaled = (diff as i128) * (calibration.scale_denominator as i128);
    let q = round_div_i128(scaled, calibration.scale_numerator as i128);
    let g: i32 = if q < i32::MIN as i128 {
        i32::MIN
    } else if q > i32::MAX as i128 {
        i32::MAX
    } else {
        q as i32
    };
    WeightReading { grams: g }
}

/// A source of power readings.
pub trait PowerSensor {
    /// Whether `r` is an outcome that a read of this sensor can give; a hardware sensor
    /// can give any.
    open spec fn power_outcome(&self, r: Result<PowerReading, String>) -> bool {
        true
    }

    fn get_name(&self) -> String;

    fn get_power_reading(&mut self) -> (r: Result<PowerReading, String>)
        ensures
            old(self).power_outcome(r),
    ;
}

/// A load cell.
pub trait WeightSensor {
    /// Whether `r` is an outcome that a weight read under `calibration` can give; a
    /// hardware sensor can give any.
    open spec fn weight_outcome(&self, calibration: WeightSensorCalibration, r: Result<WeightReading, String>) -> bool {
        true
    }

    /// Whether `r` is an outcome that a raw read can give; a hardware sensor can give any.
    open spec fn raw_outcome(&self, r: Result<i32, String>) -> bool {
        true
    }

    fn get_name(&self) -> String;

    fn get_weight_reading(&mut self, calibration: &WeightSensorCalibration) -> (r: Result<WeightReading, String>)
        ensures
            old(self).weight_outcome(*calibration, r),
    ;

    fn get_raw(&mut self) -> (r: Result<i32, String>)
        ensures
            old(self).raw_outcome(r),
    ;
}

/// A sensor that needs no hardware and returns fixed values.
pub struct SensorMock {}

impl SensorMock {
    pub fn new() -> (r: Self) {
        SensorMock {}
    }
}

/// Raw value that the mock load cell reports.
pub const MOCK_RAW: i32 = 123456;

/// Weight that the mock load cell reports.
pub const MOCK_GRAMS: i32 = 12345;

/// Reading that the mock power sensor reports: 12 V, 0.6 A, 0.5 W.
pub open spec fn mock_power_reading() -> PowerReading {
    PowerReading { bus_voltage_mv: 12000, current_ma: 600, power_mw: 500 }
}

impl WeightSensor for SensorMock {
    /// The mock always reads `MOCK_GRAMS`, whatever the calibration.
    open spec fn weight_outcome(&self, calibration: WeightSensorCalibration, r: Result<WeightReading, String>) -> bool {
        r == Ok::<WeightReading, String>(WeightReading { grams: MOCK_GRAMS })
    }

    /// The mock always reads `MOCK_RAW`.
    open spec fn raw_outcome(&self, r: Result<i32, String>) -> bool {
        r == Ok::<i32, String>(MOCK_RAW)
    }

    fn get_name(&self) -> (r: String) {
        String::from_str("SensorMock")
    }

    fn get_weight_reading(&mut self, calibration: &WeightSensorCalibration) -> (r: Result<WeightReading, String>) {
        Ok(WeightReading { grams: MOCK_GRAMS })
    }

    fn get_raw(&mut self) -> (r: Result<i32, String>) {
        Ok(MOCK_RAW)
    }
}

impl PowerSensor for SensorMock {
    /// The mock always reads `mock_power_reading()`.
    open spec fn power_outcome(&self, r: Result<PowerReading, String>) -> bool {
        r == Ok::<PowerReading, String>(mock_power_reading())
    }

    fn get_name(&self) -> (r: String) {
        String::from_str("SensorMock")
    }

    fn get_power_reading(&mut self) -> (r: Result<PowerReading, String>) {
        Ok(PowerReading { bus_voltage_mv: 12000, current_ma: 600, power_mw: 500 })
    }
}

} // verus!
