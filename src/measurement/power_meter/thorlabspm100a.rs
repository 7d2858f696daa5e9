//! Readings of a Thorlabs PM100A meter with an S120VC sensor, whose
//! uncertainty depends on the wavelength that the reading was taken at.
use crate::error::ComputationError;
use crate::measurement::power_measurement::{AbsoluteUncertainty, Background, Measurement};
use crate::quotient::{Quotient, PARTS_PER_MILLION};
use vstd::prelude::*;

verus! {

/// The wavelength bands of the S120VC sensor's calibration, each named by the
/// whole nanometres it covers.
#[derive(Debug, Clone, Copy, PartialEq, Eq, Structural, Hash)]
pub enum ThorlabsPm100aS120vcUncertaintyWavelengthRange {
    Range440to980nm,
    Range280to439nm,
    Range200to279nm,
    Range981to1100nm,
}

impl ThorlabsPm100aS120vcUncertaintyWavelengthRange {
    /// The band that a wavelength of `w` femtometres falls in. The lowest band
    /// holds both its bounds; each other band holds its upper bound only.
    pub open spec fn range_of(w: int) -> Result<
        ThorlabsPm100aS120vcUncertaintyWavelengthRange,
        ComputationError,
    > {
        if 200_000_000 <= w <= 279_000_000 {
            Ok(ThorlabsPm100aS120vcUncertaintyWavelengthRange::Range200to279nm)
        } else if 279_000_000 < w <= 439_000_000 {
            Ok(ThorlabsPm100aS120vcUncertaintyWavelengthRange::Range280to439nm)
        } else if 439_000_000 < w <= 980_000_000 {
            Ok(ThorlabsPm100aS120vcUncertaintyWavelengthRange::Range440to980nm)
        } else if 980_000_000 < w <= 1_100_000_000 {
            Ok(ThorlabsPm100aS120vcUncertaintyWavelengthRange::Range981to1100nm)
        } else {
            Err(ComputationError::OutOfRangeReading)
        }
    }

    /// The fractional uncertainty of the band, in parts per million.
    pub open spec fn fraction_ppm(self) -> int {
        match self {
            ThorlabsPm100aS120vcUncertaintyWavelengthRange::Range200to279nm => 70_000,
            ThorlabsPm100aS120vcUncertaintyWavelengthRange::Range280to439nm => 50_000,
            ThorlabsPm100aS120vcUncertaintyWavelengthRange::Range440to980nm => 30_000,
            ThorlabsPm100aS120vcUncertaintyWavelengthRange::Range981to1100nm => 70_000,
        }
    }

    /// Returns the band that a wavelength of `at_wavelength` femtometres falls in.
    pub fn get_range(at_wavelength: &u64) -> (r: Result<
        ThorlabsPm100aS120vcUncertaintyWavelengthRange,
        ComputationError,
    >)
        ensures
            r == Self::range_of(*at_wavelength as int),
    {
        let x = *at_wavelength;
        if 200_000_000 <= x && x <= 279_000_000 {
            Ok(ThorlabsPm100aS120vcUncertaintyWavelengthRange::Range200to279nm)
        } else if 279_000_000 < x && x <= 439_000_000 {
            Ok(ThorlabsPm100aS120vcUncertaintyWavelengthRange::Range280to439nm)
        } else if 439_000_000 < x && x <= 980_000_000 {
            Ok(ThorlabsPm100aS120vcUncertaintyWavelengthRange::Range440to980nm)
        } else if 980_000_000 < x && x <= 1_100_000_000 {
            Ok(ThorlabsPm100aS120vcUncertaintyWavelengthRange::Range981to1100nm)
        } else {
            Err(ComputationError::OutOfRangeReading)
        }
    }

    /// Returns the fractional uncertainty of the band, in parts per million.
    pub fn fractional_uncertainty_ppm(&self) -> (r: i64)
        ensures
            r == self.fraction_ppm(),
    {
        match self {
            ThorlabsPm100aS120vcUncertaintyWavelengthRange::Range200to279nm => 70_000,
            ThorlabsPm100aS120vcUncertaintyWavelengthRange::Range280to439nm => 50_000,
            ThorlabsPm100aS120vcUncertaintyWavelengthRange::Range440to980nm => 30_000,
            ThorlabsPm100aS120vcUncertaintyWavelengthRange::Range981to1100nm => 70_000,
        }
    }
}

/// A power reading of a Thorlabs PM100A meter with an S120VC sensor.
#[allow(non_camel_case_types)]
pub struct ThorLabsPM100A_S120VC_PowerMeterMeasurement {
    /// The reading, in picowatts.
    pub value: i64,
    /// The wavelength the reading was taken at, in femtometres.
    pub at_wavelength: u64,
}

/// The dark reading of a Thorlabs PM100A meter, in picowatts.
#[allow(non_camel_case_types)]
pub struct ThorLabsPM100A_S120VC_PowerMeterMeasurementBackground(pub i64);

impl ThorLabsPM100A_S120VC_PowerMeterMeasurementBackground {
    pub fn new(background: i64) -> (r: ThorLabsPM100A_S120VC_PowerMeterMeasurementBackground)
        ensures
            r.background_level() == background,
    {
        ThorLabsPM100A_S120VC_PowerMeterMeasurementBackground(background)
    }
}

impl Background for ThorLabsPM100A_S120VC_PowerMeterMeasurementBackground {
    open spec fn background_level(&self) -> int {
        self.0 as int
    }

    fn background(&self) -> (r: i64) {
        self.0
    }
}

impl ThorLabsPM100A_S120VC_PowerMeterMeasurement {
    pub fn new(value: i64, at_wavelength: u64) -> (r: ThorLabsPM100A_S120VC_PowerMeterMeasurement)
        ensures
            r.measured() == value,
            r.at_wavelength == at_wavelength,
    {
        ThorLabsPM100A_S120VC_PowerMeterMeasurement { value, at_wavelength }
    }
}

impl Measurement for ThorLabsPM100A_S120VC_PowerMeterMeasurement {
    open spec fn measured(&self) -> int {
        self.value as int
    }

    fn value(&self) -> (r: i64) {
        self.value
    }
}

/// The absolute uncertainty of a Thorlabs reading of `p` picowatts taken at
/// `w` femtometres: the reading times the fractional uncertainty of the band.
pub open spec fn thorlabs_uncertainty(p: int, w: int) -> Result<Quotient, ComputationError> {
    match ThorlabsPm100aS120vcUncertaintyWavelengthRange::range_of(w) {
        Ok(range) => Ok(
            Quotient {
                numerator: (p * range.fraction_ppm()) as i128,
                denominator: PARTS_PER_MILLION as i128,
            },
        ),
        Err(e) => Err(e),
    }
}

impl AbsoluteUncertainty for ThorLabsPM100A_S120VC_PowerMeterMeasurement {
    open spec fn uncertainty_result(&self) -> Result<Quotient, ComputationError> {
        thorlabs_uncertainty(self.value as int, self.at_wavelength as int)
    }

    fn uncertainty(&self) -> (r: Result<Quotient, ComputationError>) {
        let range = ThorlabsPm100aS120vcUncertaintyWavelengthRange::get_range(
            &self.at_wavelength,
        )?;
        let frac_uncertainty = range.fractional_uncertainty_ppm();
        assert(0 < frac_uncertainty <= 70_000);
        assert(-0x8000_0000_0000_0000 * 70_000 <= self.value as i128 * frac_uncertainty as i128
            <= 0x7fff_ffff_ffff_ffff * 70_000) by (nonlinear_arith)
            requires
                -0x8000_0000_0000_0000 <= self.value <= 0x7fff_ffff_ffff_ffff,
                0 < frac_uncertainty <= 70_000,
        ;
        let numerator = self.value as i128 * frac_uncertainty as i128;
        Ok(Quotient::new(numerator, PARTS_PER_MILLION as i128))
    }
}

/// From 200 nm to 1100 nm, a Thorlabs reading's uncertainty is the reading
/// times the fraction of the wavelength's band: 7% up to and including 279 nm,
/// 5% above it up to 439 nm, 3% above that up to 980 nm, and 7% above that.
pub proof fn thorlabs_uncertainty_within_calibration(
    m: ThorLabsPM100A_S120VC_PowerMeterMeasurement,
)
    requires
        200_000_000 <= m.at_wavelength <= 1_100_000_000,
    ensures
        m.uncertainty_result() matches Ok(q) && q.denominator == 1_000_000 && {
            let v = m.measured();
            let w = m.at_wavelength;
            &&& w <= 279_000_000 ==> q.numerator == v * 70_000
            &&& 279_000_000 < w <= 439_000_000 ==> q.numerator == v * 50_000
            &&& 439_000_000 < w <= 980_000_000 ==> q.numerator == v * 30_000
            &&& 980_000_000 < w ==> q.numerator == v * 70_000
        },
{
}

} // verus!
