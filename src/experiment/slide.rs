//! The optical element of an experiment and its calibration matrix.
use crate::error::ComputationError;
use crate::experiment::trial::{PolarizationState, PowerMeterLabel};
use crate::measurement::power_measurement::{
    corrected, Background, Efficiency, IncidentPower, Measurement,
};
use crate::quotient::{Quotient, PARTS_PER_MILLION};
use crate::table::{table_rows, NumericTable};
use vstd::prelude::*;

verus! {

/// An optical element with its calibration matrix: one row per sensor, and in
/// each row the reflectivity coefficients, in parts per million, of which
/// column 0 serves horizontal and column 2 vertical polarization.
pub struct Slide {
    optical_coefficients: NumericTable,
}

impl View for Slide {
    type V = Seq<Seq<i64>>;

    closed spec fn view(&self) -> Seq<Seq<i64>> {
        table_rows(self.optical_coefficients)
    }
}

/// The reflectivity coefficient, in parts per million, that `coefficients`
/// holds for a sensor and a polarization; `None` where the cell is missing or
/// not positive.
pub open spec fn reflectivity_in(
    coefficients: Seq<Seq<i64>>,
    label: PowerMeterLabel,
    polarization: PolarizationState,
) -> Option<int> {
    let i = label.row_index();
    let j = polarization.column_index();
    if i < coefficients.len() && j < coefficients[i].len() && coefficients[i][j] > 0 {
        Some(coefficients[i][j] as int)
    } else {
        None
    }
}

/// The incident power `rc / rho`, in picowatts, for a corrected reflected
/// power `rc` in picowatts and a reflectivity `rho` in parts per million.
pub open spec fn incident_power_of(rc: int, rho: Option<int>) -> Result<
    Quotient,
    ComputationError,
> {
    match rho {
        None => Err(ComputationError::InvalidCalibrationCell),
        Some(rho) => Ok(
            Quotient {
                numerator: (rc * PARTS_PER_MILLION) as i128,
                denominator: rho as i128,
            },
        ),
    }
}

/// The efficiency `tc / (rc / rho - rc)` for corrected powers `rc` and `tc`
/// and a reflectivity `rho` in parts per million, kept as
/// `tc * rho / (rc * (1 - rho))`; undefined where that denominator is zero.
pub open spec fn efficiency_of(rc: int, tc: int, rho: Option<int>) -> Result<
    Quotient,
    ComputationError,
> {
    match rho {
        None => Err(ComputationError::InvalidCalibrationCell),
        Some(rho) => if rc == 0 || rho == PARTS_PER_MILLION {
            Err(ComputationError::UndefinedEfficiency)
        } else {
            Ok(
                Quotient {
                    numerator: (tc * rho) as i128,
                    denominator: (rc * (PARTS_PER_MILLION - rho)) as i128,
                },
            )
        },
    }
}

/// The magnitude of `x`.
pub open spec fn magnitude(x: int) -> int {
    if x < 0 {
        -x
    } else {
        x
    }
}

/// The two first-order contributions to the error of an efficiency, each in
/// magnitude: that of the transmitted reading and that of the reflected
/// reading. With the two readings independent, the one-sided error is
/// `sqrt(transmitted_term^2 + reflected_term^2)`; the root is left to the
/// caller, as it has no exact quotient.
#[derive(Debug, Clone, Copy, PartialEq, Eq, Structural)]
pub struct EfficiencyError {
    pub transmitted_term: Quotient,
    pub reflected_term: Quotient,
}

/// The first-order error terms of the efficiency `E = tc * rho / (rc * (1 - rho))`
/// for uncertainties `ut / 10^6` of the transmitted and `ur / 10^6` of the
/// reflected reading, with `rho` in parts per million:
/// `|dE/dtc| * ut / 10^6 = rho * ut / (|rc| * |10^6 - rho| * 10^6)` and
/// `|dE/drc| * ur / 10^6 = rho * |tc| * ur / (rc^2 * |10^6 - rho| * 10^6)`.
/// `Overflow` where a numerator or a denominator exceeds `i128`.
pub open spec fn efficiency_error_of(rc: int, tc: int, ut: int, ur: int, rho: Option<int>) -> Result<
    EfficiencyError,
    ComputationError,
> {
    match rho {
        None => Err(ComputationError::InvalidCalibrationCell),
        Some(rho) => if rc == 0 || rho == PARTS_PER_MILLION {
            Err(ComputationError::UndefinedEfficiency)
        } else {
            let complement = magnitude(PARTS_PER_MILLION - rho);
            let tn = ut * rho;
            let td = magnitude(rc) * complement * PARTS_PER_MILLION;
            let rn = rho * magnitude(tc) * ur;
            let rd = rc * rc * complement * PARTS_PER_MILLION;
            if tn <= i128::MAX && td <= i128::MAX && rn <= i128::MAX && rd <= i128::MAX {
                Ok(
                    EfficiencyError {
                        transmitted_term: Quotient { numerator: tn as i128, denominator: td as i128 },
                        reflected_term: Quotient { numerator: rn as i128, denominator: rd as i128 },
                    },
                )
            } else {
                Err(ComputationError::Overflow)
            }
        },
    }
}

/// A product of a non-negative number with a factor of at least one is no
/// smaller than the number.
proof fn lemma_product_grows(x: int, y: int)
    requires
        x >= 0,
        y >= 1,
    ensures
        x * y >= x,
{
    assert(x * y >= x) by (nonlinear_arith)
        requires
            x >= 0,
            y >= 1,
    ;
}

/// The largest magnitude of a difference of two `i64` values.
pub open spec fn difference_bound() -> int {
    0xffff_ffff_ffff_ffff
}

impl Slide {
    /// A slide with the given calibration matrix.
    pub fn new(optical_coefficients: NumericTable) -> (r: Slide)
        ensures
            r@ == table_rows(optical_coefficients),
    {
        Slide { optical_coefficients }
    }

    /// The reflectivity coefficient that the slide holds for a sensor and a
    /// polarization.
    pub open spec fn reflectivity(
        &self,
        label: PowerMeterLabel,
        polarization: PolarizationState,
    ) -> Option<int> {
        reflectivity_in(self@, label, polarization)
    }

    fn get_reflectivity_column_index(&self, polarization: &PolarizationState) -> (r: usize)
        ensures
            r == polarization.column_index(),
    {
        match polarization {
            PolarizationState::Horizontal => 0,
            PolarizationState::Vertical => 2,
        }
    }

    fn get_sensor_label_row_index(&self, sensor_label: &PowerMeterLabel) -> (r: usize)
        ensures
            r == sensor_label.row_index(),
    {
        match sensor_label {
            PowerMeterLabel::SensorA => 0,
            PowerMeterLabel::SensorC => 1,
        }
    }

    /// Returns the reflectivity coefficient, in parts per million, for a sensor
    /// and a polarization.
    pub fn reflectivity_coefficient(
        &self,
        sensor_label: &PowerMeterLabel,
        polarization: &PolarizationState,
    ) -> (r: Result<i64, ComputationError>)
        ensures
            match self.reflectivity(*sensor_label, *polarization) {
                Some(rho) => r == Ok::<i64, ComputationError>(rho as i64),
                None => r == Err::<i64, ComputationError>(
                    ComputationError::InvalidCalibrationCell,
                ),
            },
    {
        let row = self.get_sensor_label_row_index(sensor_label);
        let column = self.get_reflectivity_column_index(polarization);
        match self.optical_coefficients.cell(row, column) {
            Some(rho) => if rho > 0 {
                Ok(rho)
            } else {
                Err(ComputationError::InvalidCalibrationCell)
            },
            None => Err(ComputationError::InvalidCalibrationCell),
        }
    }

    /// Returns the first-order error terms of the efficiency for corrected
    /// powers `rc` and `tc` and reading uncertainties `ut / 10^6` (transmitted)
    /// and `ur / 10^6` (reflected), all in picowatts.
    pub fn efficiency_error(
        &self,
        rc: i128,
        tc: i128,
        ut: i128,
        ur: i128,
        reflected_label: &PowerMeterLabel,
        polarization: &PolarizationState,
    ) -> (r: Result<EfficiencyError, ComputationError>)
        requires
            -difference_bound() <= rc <= difference_bound(),
            -difference_bound() <= tc <= difference_bound(),
            0 <= ut,
            0 <= ur,
        ensures
            r == efficiency_error_of(
                rc as int,
                tc as int,
                ut as int,
                ur as int,
                self.reflectivity(*reflected_label, *polarization),
            ),
    {
        let rho = self.reflectivity_coefficient(reflected_label, polarization)?;
        if rc == 0 || rho == PARTS_PER_MILLION {
            return Err(ComputationError::UndefinedEfficiency);
        }
        let arc: u128 = if rc < 0 { (-rc) as u128 } else { rc as u128 };
        let atc: u128 = if tc < 0 { (-tc) as u128 } else { tc as u128 };
        let complement: i128 = PARTS_PER_MILLION as i128 - rho as i128;
        let acomplement: u128 = if complement < 0 { (-complement) as u128 } else { complement as u128 };
        let bound = 0xffff_ffff_ffff_ffffu128;
        proof {
            assert(arc * acomplement <= bound * 0x8000_0000_0000_0000) by (nonlinear_arith)
                requires
                    0 <= arc <= bound,
                    0 <= acomplement <= 0x8000_0000_0000_0000,
            ;
            assert(rho * atc <= 0x8000_0000_0000_0000 * bound) by (nonlinear_arith)
                requires
                    0 <= atc <= bound,
                    0 < rho <= 0x8000_0000_0000_0000,
            ;
            assert(arc * arc == rc * rc) by (nonlinear_arith)
                requires
                    arc == rc || arc == -rc,
            ;
            assert(arc * arc <= bound * bound) by (nonlinear_arith)
                requires
                    0 <= arc <= bound,
            ;
            assert(arc * arc >= 1) by (nonlinear_arith)
                requires
                    arc >= 1,
            ;
            assert(acomplement >= 1);
            lemma_product_grows(arc * arc * acomplement, PARTS_PER_MILLION as int);
        }
        let tn = match (ut as u128).checked_mul(rho as u128) {
            Some(x) => x,
            None => return Err(ComputationError::Overflow),
        };
        let td = match (arc * acomplement).checked_mul(PARTS_PER_MILLION as u128) {
            Some(x) => x,
            None => return Err(ComputationError::Overflow),
        };
        let rn = match (rho as u128 * atc).checked_mul(ur as u128) {
            Some(x) => x,
            None => return Err(ComputationError::Overflow),
        };
        let scaled = match (arc * arc).checked_mul(acomplement) {
            Some(x) => x,
            None => return Err(ComputationError::Overflow),
        };
        let rd = match scaled.checked_mul(PARTS_PER_MILLION as u128) {
            Some(x) => x,
            None => return Err(ComputationError::Overflow),
        };
        let max = i128::MAX as u128;
        if tn > max || td > max || rn > max || rd > max {
            return Err(ComputationError::Overflow);
        }
        proof {
            assert(td > 0) by (nonlinear_arith)
                requires
                    td == arc * acomplement * 1_000_000,
                    arc > 0,
                    acomplement > 0,
            ;
            assert(rd > 0) by (nonlinear_arith)
                requires
                    rd == arc * arc * acomplement * 1_000_000,
                    arc > 0,
                    acomplement > 0,
            ;
        }
        Ok(
            EfficiencyError {
                transmitted_term: Quotient::new(tn as i128, td as i128),
                reflected_term: Quotient::new(rn as i128, rd as i128),
            },
        )
    }
}

impl IncidentPower for Slide {
    open spec fn incident_power_result(
        &self,
        rc: int,
        reflected_label: PowerMeterLabel,
        polarization: PolarizationState,
    ) -> Result<Quotient, ComputationError> {
        incident_power_of(rc, self.reflectivity(reflected_label, polarization))
    }

    fn compute_incident_power<R, Br, T, Tr>(
        &self,
        reflected_power: &R,
        reflected_power_background: &Br,
        reflected_power_meter_label: &PowerMeterLabel,
        transmitted_power: &T,
        transmitted_power_background: &Tr,
        transmitted_power_meter_label: &PowerMeterLabel,
        polarization: &PolarizationState,
    ) -> (r: Result<Quotient, ComputationError>) where
        R: Measurement,
        Br: Background,
        T: Measurement,
        Tr: Background,
     {
        let reflectivity_coefficient = self.reflectivity_coefficient(
            reflected_power_meter_label,
            polarization,
        )?;
        let rc = reflected_power.value() as i128 - reflected_power_background.background() as i128;
        assert(-difference_bound() * 1_000_000 <= rc * 1_000_000 <= difference_bound() * 1_000_000)
            by (nonlinear_arith)
            requires
                -difference_bound() <= rc <= difference_bound(),
        ;
        Ok(Quotient::new(rc * PARTS_PER_MILLION as i128, reflectivity_coefficient as i128))
    }
}

impl Efficiency for Slide {
    open spec fn efficiency_result(
        &self,
        rc: int,
        tc: int,
        reflected_label: PowerMeterLabel,
        polarization: PolarizationState,
    ) -> Result<Quotient, ComputationError> {
        efficiency_of(rc, tc, self.reflectivity(reflected_label, polarization))
    }

    fn compute_efficiency<R, Br, T, Tr>(
        &self,
        reflected_power: &R,
        reflected_power_background: &Br,
        reflected_power_meter_label: &PowerMeterLabel,
        transmitted_power: &T,
        transmitted_power_background: &Tr,
        transmitted_power_meter_label: &PowerMeterLabel,
        polarization: &PolarizationState,
    ) -> (r: Result<Quotient, ComputationError>) where
        R: Measurement,
        Br: Background,
        T: Measurement,
        Tr: Background,
     {
        let reflectivity_coefficient = self.reflectivity_coefficient(
            reflected_power_meter_label,
            polarization,
        )?;
        let rc = reflected_power.value() as i128 - reflected_power_background.background() as i128;
        let tc = transmitted_power.value() as i128 - transmitted_power_background.background()
            as i128;
        if rc == 0 || reflectivity_coefficient == PARTS_PER_MILLION {
            return Err(ComputationError::UndefinedEfficiency);
        }
        let rho = reflectivity_coefficient as i128;
        let complement = PARTS_PER_MILLION as i128 - rho;
        proof {
            let bound = difference_bound();
            assert(-bound * 0x7fff_ffff_ffff_ffff <= tc * rho <= bound * 0x7fff_ffff_ffff_ffff)
                by (nonlinear_arith)
                requires
                    -bound <= tc <= bound,
                    0 < rho <= 0x7fff_ffff_ffff_ffff,
            ;
            assert(-bound * 0x8000_0000_0000_0000 <= rc * complement <= bound
                * 0x8000_0000_0000_0000) by (nonlinear_arith)
                requires
                    -bound <= rc <= bound,
                    -0x8000_0000_0000_0000 <= complement <= 0x8000_0000_0000_0000,
            ;
            assert(rc * complement != 0) by (nonlinear_arith)
                requires
                    rc != 0,
                    complement != 0,
            ;
        }
        Ok(Quotient::new(tc * rho, rc * complement))
    }
}

/// Incident power and efficiency depend on the readings only through their
/// values and backgrounds: readings of other instrument types with the same
/// numbers give the same results.
pub proof fn instruments_are_interchangeable<R1, B1, T1, U1, R2, B2, T2, U2>(
    slide: Slide,
    reflected_1: R1,
    reflected_background_1: B1,
    transmitted_1: T1,
    transmitted_background_1: U1,
    reflected_2: R2,
    reflected_background_2: B2,
    transmitted_2: T2,
    transmitted_background_2: U2,
    reflected_label: PowerMeterLabel,
    polarization: PolarizationState,
) where
    R1: Measurement,
    B1: Background,
    T1: Measurement,
    U1: Background,
    R2: Measurement,
    B2: Background,
    T2: Measurement,
    U2: Background,

    requires
        reflected_1.measured() == reflected_2.measured(),
        reflected_background_1.background_level() == reflected_background_2.background_level(),
        transmitted_1.measured() == transmitted_2.measured(),
        transmitted_background_1.background_level()
            == transmitted_background_2.background_level(),
    ensures
        slide.incident_power_result(
            corrected(&reflected_1, &reflected_background_1),
            reflected_label,
            polarization,
        ) == slide.incident_power_result(
            corrected(&reflected_2, &reflected_background_2),
            reflected_label,
            polarization,
        ),
        slide.efficiency_result(
            corrected(&reflected_1, &reflected_background_1),
            corrected(&transmitted_1, &transmitted_background_1),
            reflected_label,
            polarization,
        ) == slide.efficiency_result(
            corrected(&reflected_2, &reflected_background_2),
            corrected(&transmitted_2, &transmitted_background_2),
            reflected_label,
            polarization,
        ),
{
}

/// The efficiency is the corrected transmitted power over the incident power
/// less the corrected reflected power: from an incident power `n / d` it is
/// exactly `tc * d / (n - rc * d)`, and it is undefined where `rc` is zero or
/// the incident power equals the reflected power. A calibration cell that is
/// missing or not positive fails both computations alike.
pub proof fn efficiency_from_incident_power(
    slide: Slide,
    rc: int,
    tc: int,
    reflected_label: PowerMeterLabel,
    polarization: PolarizationState,
)
    requires
        -difference_bound() <= rc <= difference_bound(),
        -difference_bound() <= tc <= difference_bound(),
    ensures
        match slide.incident_power_result(rc, reflected_label, polarization) {
            Ok(p) => if rc == 0 || p.numerator == rc * p.denominator {
                slide.efficiency_result(rc, tc, reflected_label, polarization) == Err::<
                    Quotient,
                    ComputationError,
                >(ComputationError::UndefinedEfficiency)
            } else {
                slide.efficiency_result(rc, tc, reflected_label, polarization) == Ok::<
                    Quotient,
                    ComputationError,
                >(
                    Quotient {
                        numerator: (tc * p.denominator) as i128,
                        denominator: (p.numerator - rc * p.denominator) as i128,
                    },
                )
            },
            Err(e) => slide.efficiency_result(rc, tc, reflected_label, polarization) == Err::<
                Quotient,
                ComputationError,
            >(e),
        },
{
    if let Some(rho) = slide.reflectivity(reflected_label, polarization) {
        let bound = difference_bound();
        assert(rho == slide@[reflected_label.row_index()][polarization.column_index()]);
        assert(0 < rho <= 0x7fff_ffff_ffff_ffff);
        assert(-bound * 1_000_000 <= rc * 1_000_000 <= bound * 1_000_000) by (nonlinear_arith)
            requires
                -bound <= rc <= bound,
        ;
        assert(rc * 1_000_000 - rc * rho == rc * (1_000_000 - rho)) by (nonlinear_arith);
        assert(rc != 0 && rho != 1_000_000 ==> rc * (1_000_000 - rho) != 0) by (nonlinear_arith);
    }
}

/// A reflectivity of one leaves the efficiency undefined, whatever the
/// corrected powers.
pub proof fn unit_reflectivity_leaves_efficiency_undefined(
    slide: Slide,
    rc: int,
    tc: int,
    reflected_label: PowerMeterLabel,
    polarization: PolarizationState,
)
    requires
        slide.reflectivity(reflected_label, polarization) == Some(1_000_000int),
    ensures
        slide.efficiency_result(rc, tc, reflected_label, polarization) == Err::<
            Quotient,
            ComputationError,
        >(ComputationError::UndefinedEfficiency),
{
}

} // verus!
