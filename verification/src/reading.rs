//! Sensor readings, read outcomes and what the sampling loop emits for each.
//!
//! One blocking read of the single-wire sensor either yields a measurement
//! or one of three soft failures. The loop converts a measurement and emits
//! it; it emits a failure's description and does nothing else — no retry, no
//! state change, no escalation.

use crate::convert::celsius_deci_to_fahrenheit_centi;
use crate::convert::fahrenheit_centi;
use vstd::prelude::*;

verus! {

/// One successful measurement, in the sensor's native resolution:
/// temperature in tenths of a degree Celsius, relative humidity in tenths
/// of a percent.
#[derive(Clone, Copy, Debug, PartialEq, Eq, Structural)]
pub struct SensorReading {
    /// Temperature, deci-degrees Celsius.
    pub temperature_deci_celsius: i32,
    /// Relative humidity, deci-percent.
    pub humidity_deci_percent: u16,
}

/// The soft failures a sensor read can produce. All are handled identically:
/// described, emitted, and forgotten.
#[derive(Clone, Copy, Debug, PartialEq, Eq, Structural)]
pub enum SensorError {
    /// The line missed a timing window of the single-wire protocol.
    Timing,
    /// The frame arrived but its checksum did not match.
    Checksum,
    /// The bus could not be driven or released.
    Bus,
}

/// What one blocking sensor read yields.
#[derive(Clone, Copy, Debug, PartialEq, Eq, Structural)]
pub enum ReadOutcome {
    /// The read succeeded with this measurement.
    Reading(SensorReading),
    /// The read failed; the kind says how.
    Failed(SensorError),
}

/// What the sampling loop emits for one read: a converted report, or the
/// failure as it was.
#[derive(Clone, Copy, Debug, PartialEq, Eq, Structural)]
pub enum Emission {
    /// A successful measurement, temperature already converted.
    Report {
        /// Temperature, centi-degrees Fahrenheit.
        temperature_centi_fahrenheit: i64,
        /// Relative humidity, deci-percent, passed through unchanged.
        humidity_deci_percent: u16,
    },
    /// The read failed; the loop only reports it.
    Failure(SensorError),
}

impl SensorError {
    /// The diagnostic line emitted for this failure.
    pub open spec fn description_spec(self) -> Seq<char> {
        match self {
            SensorError::Timing => "sensor timing error"@,
            SensorError::Checksum => "sensor checksum error"@,
            SensorError::Bus => "sensor bus error"@,
        }
    }

    /// The diagnostic line emitted for this failure.
    pub fn description(&self) -> (text: &'static str)
        ensures
            text@ == self.description_spec(),
    {
        match self {
            SensorError::Timing => "sensor timing error",
            SensorError::Checksum => "sensor checksum error",
            SensorError::Bus => "sensor bus error",
        }
    }
}

/// Turn one read outcome into what the loop emits: a success becomes a
/// report with the temperature converted and the humidity unchanged; a
/// failure is passed through as a failure of the same kind. This function
/// has no access to the event flag or the awaiter, so a failure cannot
/// re-arm or re-trigger anything: the loop simply waits for the next
/// independent motion event.
pub fn dispatch_outcome(outcome: &ReadOutcome) -> (emission: Emission)
    ensures
        (match *outcome {
            ReadOutcome::Reading(r) => emission matches Emission::Report {
                temperature_centi_fahrenheit,
                humidity_deci_percent,
            } && temperature_centi_fahrenheit == fahrenheit_centi(r.temperature_deci_celsius as int)
                && humidity_deci_percent == r.humidity_deci_percent,
            ReadOutcome::Failed(e) => emission == Emission::Failure(e),
        }),
{
    match outcome {
        ReadOutcome::Reading(r) => Emission::Report {
            temperature_centi_fahrenheit: celsius_deci_to_fahrenheit_centi(r.temperature_deci_celsius),
            humidity_deci_percent: r.humidity_deci_percent,
        },
        ReadOutcome::Failed(e) => Emission::Failure(*e),
    }
}

} // verus!
