//! Readings of a Newport model 835 power meter, whose uncertainty depends on
//! the display range that the reading falls in.
use crate::error::ComputationError;
use crate::measurement::power_measurement::{AbsoluteUncertainty, Background, Measurement};
use crate::quotient::{Quotient, PARTS_PER_MILLION};
use vstd::prelude::*;

verus! {

/// A power reading of a Newport model 835 power meter, in picowatts.
pub struct NewportModel835PowerMeterMeasurement {
    pub value: i64,
}

/// The dark reading of a Newport model 835 power meter, in picowatts.
pub struct NewportModel835PowerMeterMeasurementBackground(pub i64);

impl NewportModel835PowerMeterMeasurementBackground {
    pub fn new(background: i64) -> (r: NewportModel835PowerMeterMeasurementBackground)
        ensures
            r.background_level() == background,
    {
        NewportModel835PowerMeterMeasurementBackground(background)
    }
}

impl Background for NewportModel835PowerMeterMeasurementBackground {
    open spec fn background_level(&self) -> int {
        self.0 as int
    }

    fn background(&self) -> (r: i64) {
        self.0
    }
}

impl NewportModel835PowerMeterMeasurement {
    pub fn new(value: i64) -> (r: NewportModel835PowerMeterMeasurement)
        ensures
            r.measured() == value,
    {
        NewportModel835PowerMeterMeasurement { value }
    }
}

/// The display ranges of the Newport model 835 power meter, each named by its
/// upper bound.
#[derive(Debug, Clone, Copy, PartialEq, Eq, Structural, Hash)]
pub enum NewportModel835PowerMeterRange {
    Twonanowatts,
    Twentynanowatts,
    Twohundrednanowatts,
    Twomilliwatts,
    Twentymilliwatts,
    Twohundredmilliwatts,
}

impl NewportModel835PowerMeterRange {
    /// The range that a reading of `p` picowatts falls in. The lowest range
    /// holds both its bounds; each other range holds its upper bound only.
    pub open spec fn range_of(p: int) -> Result<NewportModel835PowerMeterRange, ComputationError> {
        if 0 <= p <= 2_000 {
            Ok(NewportModel835PowerMeterRange::Twonanowatts)
        } else if 2_000 < p <= 20_000 {
            Ok(NewportModel835PowerMeterRange::Twentynanowatts)
        } else if 20_000 < p <= 200_000 {
            Ok(NewportModel835PowerMeterRange::Twohundrednanowatts)
        } else if 200_000 < p <= 2_000_000_000 {
            Ok(NewportModel835PowerMeterRange::Twomilliwatts)
        } else if 2_000_000_000 < p <= 20_000_000_000 {
            Ok(NewportModel835PowerMeterRange::Twentymilliwatts)
        } else if 20_000_000_000 < p <= 200_000_000_000 {
            Ok(NewportModel835PowerMeterRange::Twohundredmilliwatts)
        } else {
            Err(ComputationError::OutOfRangeReading)
        }
    }

    /// The fractional full-scale uncertainty of the range, in parts per million.
    pub open spec fn fullscale_ppm(self) -> int {
        match self {
            NewportModel835PowerMeterRange::Twonanowatts => 2_000,
            NewportModel835PowerMeterRange::Twentynanowatts => 500,
            NewportModel835PowerMeterRange::Twohundrednanowatts => 500,
            NewportModel835PowerMeterRange::Twomilliwatts => 500,
            NewportModel835PowerMeterRange::Twentymilliwatts => 500,
            NewportModel835PowerMeterRange::Twohundredmilliwatts => 500,
        }
    }

    /// The fractional reading uncertainty of the range, in parts per million.
    pub open spec fn reading_ppm(self) -> int {
        match self {
            NewportModel835PowerMeterRange::Twonanowatts => 4_000,
            NewportModel835PowerMeterRange::Twentynanowatts => 4_000,
            NewportModel835PowerMeterRange::Twohundrednanowatts => 2_000,
            NewportModel835PowerMeterRange::Twomilliwatts => 1_500,
            NewportModel835PowerMeterRange::Twentymilliwatts => 1_000,
            NewportModel835PowerMeterRange::Twohundredmilliwatts => 1_000,
        }
    }

    /// Returns the range that a reading of `value` picowatts falls in.
    pub fn get_range(value: &i64) -> (r: Result<NewportModel835PowerMeterRange, ComputationError>)
        ensures
            r == Self::range_of(*value as int),
    {
        let x = *value;
        if 0 <= x && x <= 2_000 {
            Ok(NewportModel835PowerMeterRange::Twonanowatts)
        } else if 2_000 < x && x <= 20_000 {
            Ok(NewportModel835PowerMeterRange::Twentynanowatts)
        } else if 20_000 < x && x <= 200_000 {
            Ok(NewportModel835PowerMeterRange::Twohundrednanowatts)
        } else if 200_000 < x && x <= 2_000_000_000 {
            Ok(NewportModel835PowerMeterRange::Twomilliwatts)
        } else if 2_000_000_000 < x && x <= 20_000_000_000 {
            Ok(NewportModel835PowerMeterRange::Twentymilliwatts)
        } else if 20_000_000_000 < x && x <= 200_000_000_000 {
            Ok(NewportModel835PowerMeterRange::Twohundredmilliwatts)
        } else {
            Err(ComputationError::OutOfRangeReading)
        }
    }

    /// Returns the fractional full-scale uncertainty, in parts per million.
    pub fn fullscale_fraction_ppm(&self) -> (r: i64)
        ensures
            r == self.fullscale_ppm(),
    {
        match self {
            NewportModel835PowerMeterRange::Twonanowatts => 2_000,
            _ => 500,
        }
    }

    /// Returns the fractional reading uncertainty, in parts per million.
    pub fn reading_fraction_ppm(&self) -> (r: i64)
        ensures
            r == self.reading_ppm(),
    {
        match self {
            NewportModel835PowerMeterRange::Twonanowatts => 4_000,
            NewportModel835PowerMeterRange::Twentynanowatts => 4_000,
            NewportModel835PowerMeterRange::Twohundrednanowatts => 2_000,
            NewportModel835PowerMeterRange::Twomilliwatts => 1_500,
            NewportModel835PowerMeterRange::Twentymilliwatts => 1_000,
            NewportModel835PowerMeterRange::Twohundredmilliwatts => 1_000,
        }
    }
}

impl Measurement for NewportModel835PowerMeterMeasurement {
    open spec fn measured(&self) -> int {
        self.value as int
    }

    fn value(&self) -> (r: i64) {
        self.value
    }
}

/// The absolute uncertainty of a Newport reading of `p` picowatts: the reading
/// times the sum of its range's two fractional uncertainties.
pub open spec fn newport_uncertainty(p: int) -> Result<Quotient, ComputationError> {
    match NewportModel835PowerMeterRange::range_of(p) {
        Ok(range) => Ok(
            Quotient {
                numerator: (p * (range.fullscale_ppm() + range.reading_ppm())) as i128,
                denominator: PARTS_PER_MILLION as i128,
            },
        ),
        Err(e) => Err(e),
    }
}

/// A Newport uncertainty, where there is one, is a non-negative number of
/// millionths of a picowatt.
pub proof fn lemma_newport_uncertainty_nonnegative(p: int)
    ensures
        newport_uncertainty(p) matches Ok(q) ==> q.numerator >= 0 && q.denominator
            == PARTS_PER_MILLION,
{
    if let Ok(range) = NewportModel835PowerMeterRange::range_of(p) {
        assert(0 <= p <= 200_000_000_000);
        assert(0 <= range.fullscale_ppm() + range.reading_ppm() <= 6_000);
        assert(0 <= p * (range.fullscale_ppm() + range.reading_ppm()) <= 200_000_000_000 * 6_000)
            by (nonlinear_arith)
            requires
                0 <= p <= 200_000_000_000,
                0 <= range.fullscale_ppm() + range.reading_ppm() <= 6_000,
        ;
    }
}

impl AbsoluteUncertainty for NewportModel835PowerMeterMeasurement {
    open spec fn uncertainty_result(&self) -> Result<Quotient, ComputationError> {
        newport_uncertainty(self.value as int)
    }

    fn uncertainty(&self) -> (r: Result<Quotient, ComputationError>) {
        let range = NewportModel835PowerMeterRange::get_range(&self.value)?;
        let fullscale_frac_uncertainty = range.fullscale_fraction_ppm();
        let reading_frac_uncertainty = range.reading_fraction_ppm();
        assert(0 <= self.value <= 200_000_000_000);
        assert(0 <= fullscale_frac_uncertainty + reading_frac_uncertainty <= 6_000) by {
            match range {
                NewportModel835PowerMeterRange::Twonanowatts => {},
                NewportModel835PowerMeterRange::Twentynanowatts => {},
                NewportModel835PowerMeterRange::Twohundrednanowatts => {},
                NewportModel835PowerMeterRange::Twomilliwatts => {},
                NewportModel835PowerMeterRange::Twentymilliwatts => {},
                NewportModel835PowerMeterRange::Twohundredmilliwatts => {},
            }
        }
        assert(0 <= self.value as i128 * (fullscale_frac_uncertainty + reading_frac_uncertainty)
            <= 200_000_000_000 * 6_000) by (nonlinear_arith)
            requires
                0 <= self.value <= 200_000_000_000,
                0 <= fullscale_frac_uncertainty + reading_frac_uncertainty <= 6_000,
        ;
        let numerator = self.value as i128 * (fullscale_frac_uncertainty
            + reading_frac_uncertainty) as i128;
        Ok(Quotient::new(numerator, PARTS_PER_MILLION as i128))
    }
}

/// From zero up to two milliwatts, a Newport reading's uncertainty is the
/// reading times the summed fractions of its range: 0.6% up to and including
/// 2 nW, 0.45% above it up to 20 nW, 0.25% above that up to 200 nW, and 0.2%
/// above that up to 2 mW.
pub proof fn newport_uncertainty_up_to_two_milliwatts(m: NewportModel835PowerMeterMeasurement)
    requires
        0 <= m.measured() <= 2_000_000_000,
    ensures
        m.uncertainty_result() matches Ok(q) && q.denominator == 1_000_000 && {
            let v = m.measured();
            &&& v <= 2_000 ==> q.numerator == v * 6_000
            &&& 2_000 < v <= 20_000 ==> q.numerator == v * 4_500
            &&& 20_000 < v <= 200_000 ==> q.numerator == v * 2_500
            &&& 200_000 < v ==> q.numerator == v * 2_000
        },
{
}

} // verus!
