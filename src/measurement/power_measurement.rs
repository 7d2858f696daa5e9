//! The capabilities that instrument readings offer, and the computations
//! that an optical element performs on any readings that offer them.
use crate::error::ComputationError;
use crate::experiment::trial::{PolarizationState, PowerMeterLabel};
use crate::quotient::Quotient;
use vstd::prelude::*;

verus! {

/// A single reading of a quantity.
pub trait Measurement {
    /// The reading, in picowatts.
    spec fn measured(&self) -> int;

    /// Returns the reading, in picowatts.
    fn value(&self) -> (r: i64)
        ensures
            r == self.measured(),
    ;
}

/// A measurement that can state its own absolute uncertainty.
pub trait AbsoluteUncertainty: Measurement {
    /// The uncertainty, in picowatts, or why the reading has none.
    spec fn uncertainty_result(&self) -> Result<Quotient, ComputationError>;

    /// Returns the absolute uncertainty of the reading, in picowatts.
    fn uncertainty(&self) -> (r: Result<Quotient, ComputationError>)
        ensures
            r == self.uncertainty_result(),
    ;
}

/// The dark (zero-light) reading of a sensor.
pub trait Background {
    /// The dark reading, in picowatts.
    spec fn background_level(&self) -> int;

    /// Returns the dark reading, in picowatts.
    fn background(&self) -> (r: i64)
        ensures
            r == self.background_level(),
    ;
}

/// The reading less its dark reading.
pub open spec fn corrected<M: Measurement, B: Background>(m: &M, b: &B) -> int {
    m.measured() - b.background_level()
}

/// Computes the power incident on an optical element from the reflected reading.
pub trait IncidentPower {
    /// The incident power, in picowatts, for a corrected reflected power `rc`.
    spec fn incident_power_result(
        &self,
        rc: int,
        reflected_label: PowerMeterLabel,
        polarization: PolarizationState,
    ) -> Result<Quotient, ComputationError>;

    /// The power incident on the element. Only the reflected side is read; the
    /// transmitted side is taken for symmetry with `Efficiency`.
    fn compute_incident_power<R, Br, T, Tr>(
        &self,
        reflected_power: &R,
        reflected_power_background: &Br,
        reflected_power_meter_label: &PowerMeterLabel,
        transmitted_power: &T,
        transmitted_power_background: &Tr,
        transmitted_power_meter_label: &PowerMeterLabel,
        polarization: &PolarizationState,
    ) -> (r: Result<Quotient, ComputationError>) where
        R: Measurement,
        Br: Background,
        T: Measurement,
        Tr: Background,
        ensures
            r == self.incident_power_result(
                corrected(reflected_power, reflected_power_background),
                *reflected_power_meter_label,
                *polarization,
            ),
    ;
}

/// Computes the efficiency of an optical element.
pub trait Efficiency {
    /// The efficiency for corrected reflected and transmitted powers `rc` and `tc`.
    spec fn efficiency_result(
        &self,
        rc: int,
        tc: int,
        reflected_label: PowerMeterLabel,
        polarization: PolarizationState,
    ) -> Result<Quotient, ComputationError>;

    /// The efficiency of the element: the corrected transmitted power over the
    /// incident power less the corrected reflected power.
    fn compute_efficiency<R, Br, T, Tr>(
        &self,
        reflected_power: &R,
        reflected_power_background: &Br,
        reflected_power_meter_label: &PowerMeterLabel,
        transmitted_power: &T,
        transmitted_power_background: &Tr,
        transmitted_power_meter_label: &PowerMeterLabel,
        polarization: &PolarizationState,
    ) -> (r: Result<Quotient, ComputationError>) where
        R: Measurement,
        Br: Background,
        T: Measurement,
        Tr: Background,
        ensures
            r == self.efficiency_result(
                corrected(reflected_power, reflected_power_background),
                corrected(transmitted_power, transmitted_power_background),
                *reflected_power_meter_label,
                *polarization,
            ),
    ;
}

} // verus!
