use vstd::prelude::*;

verus! {

/// Why a computation could not produce a value.
#[derive(Debug, Clone, Copy, PartialEq, Eq, Structural)]
pub enum ComputationError {
    /// A reading, or the wavelength it was taken at, lies outside every
    /// calibration range of its instrument.
    OutOfRangeReading,
    /// The calibration matrix has no usable coefficient for a sensor and a
    /// polarization: the cell is missing, or it is not positive.
    InvalidCalibrationCell,
    /// The efficiency's denominator is zero: the reflectivity is one, or the
    /// corrected reflected power is zero.
    UndefinedEfficiency,
    /// A requested incident angle does not occur in the data set.
    UnknownIncidentAngle,
    /// An exact error term does not fit in 128 bits.
    Overflow,
}

} // verus!
