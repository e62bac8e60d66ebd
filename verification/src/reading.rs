//! The value a successful sample produces, and the ways a sample can fail.

use vstd::prelude::*;

verus! {

/// One temperature and humidity pair, in the sensor's own resolution of a
/// tenth of a unit: `215` is 21.5 °C, `400` is 40 % relative humidity.
///
/// A reading is a plain value. A new one replaces the old one whole.
#[derive(Clone, Copy, Debug, PartialEq, Eq, Structural)]
pub struct Reading {
    /// Tenths of a degree Celsius.
    pub temperature_tenths: i32,
    /// Tenths of a percent of relative humidity.
    pub humidity_tenths: u32,
}

/// Why a sample produced no reading. Every kind is transient.
#[derive(Clone, Copy, Debug, PartialEq, Eq, Structural)]
pub enum SensorError {
    /// The sensor did not answer in time.
    Timeout,
    /// The frame arrived but its checksum did not match.
    ChecksumMismatch,
    /// The line did not follow the transport's protocol.
    ProtocolViolation,
}

impl Reading {
    /// Builds a reading from tenths of a degree and tenths of a percent.
    pub fn new(temperature_tenths: i32, humidity_tenths: u32) -> (r: Reading)
        ensures
            r.temperature_tenths == temperature_tenths,
            r.humidity_tenths == humidity_tenths,
    {
        Reading { temperature_tenths, humidity_tenths }
    }
}

} // verus!
