use data_analysis::error::ComputationError;
use data_analysis::experiment::slide::{EfficiencyError, Slide};
use data_analysis::experiment::trial::{
    ComputationResult, ComputationType, PolarizationState, PowerMeterLabel, Trial,
};
use data_analysis::measurement::power_measurement::{Efficiency, IncidentPower};
use data_analysis::measurement::power_meter::newportmodel835powermeter::{
    NewportModel835PowerMeterMeasurement, NewportModel835PowerMeterMeasurementBackground,
};
use data_analysis::measurement::power_meter::thorlabspm100a::{
    ThorLabsPM100A_S120VC_PowerMeterMeasurement,
    ThorLabsPM100A_S120VC_PowerMeterMeasurementBackground,
};
use data_analysis::quotient::Quotient;
use data_analysis::table::NumericTable;

type Newport = NewportModel835PowerMeterMeasurement;
type NewportBackground = NewportModel835PowerMeterMeasurementBackground;

fn slide(rows: Vec<i64>) -> Slide {
    let n_rows = rows.len() / 3;
    Slide::new(NumericTable::from_row_major(n_rows, 3, rows).unwrap())
}

fn incident(s: &Slide, reflected: i64, background: i64, label: PowerMeterLabel, p: PolarizationState) -> Result<Quotient, ComputationError> {
    s.compute_incident_power(
        &Newport::new(reflected),
        &NewportBackground::new(background),
        &label,
        &Newport::new(0),
        &NewportBackground::new(0),
        &PowerMeterLabel::SensorC,
        &p,
    )
}

fn efficiency(s: &Slide, reflected: i64, r_background: i64, transmitted: i64, t_background: i64) -> Result<Quotient, ComputationError> {
    s.compute_efficiency(
        &Newport::new(reflected),
        &NewportBackground::new(r_background),
        &PowerMeterLabel::SensorA,
        &Newport::new(transmitted),
        &NewportBackground::new(t_background),
        &PowerMeterLabel::SensorC,
        &PolarizationState::Horizontal,
    )
}

#[test]
fn incident_power_of_ten_milliwatts_at_half_reflectivity() {
    // rho_H = 0.5, R = 0.01 W, background 0.001 W
    let s = slide(vec![500_000, 0, 400_000, 300_000, 0, 200_000]);
    let p = incident(&s, 10_000_000_000, 1_000_000_000, PowerMeterLabel::SensorA, PolarizationState::Horizontal).unwrap();
    assert_eq!(p, Quotient::new(9_000_000_000 * 1_000_000, 500_000));
    // 0.018 W
    assert_eq!(p.numerator, 18_000_000_000 * p.denominator);
}

#[test]
fn incident_power_reads_the_sensor_row_and_polarization_column() {
    let s = slide(vec![500_000, 0, 400_000, 300_000, 0, 200_000]);
    let v = incident(&s, 1_000, 0, PowerMeterLabel::SensorA, PolarizationState::Vertical).unwrap();
    assert_eq!(v.denominator, 400_000);
    let h = incident(&s, 1_000, 0, PowerMeterLabel::SensorC, PolarizationState::Horizontal).unwrap();
    assert_eq!(h.denominator, 300_000);
    let c = incident(&s, 1_000, 0, PowerMeterLabel::SensorC, PolarizationState::Vertical).unwrap();
    assert_eq!(c, Quotient::new(1_000_000_000, 200_000));
    assert_eq!(s.reflectivity_coefficient(&PowerMeterLabel::SensorC, &PolarizationState::Vertical), Ok(200_000));
}

#[test]
fn missing_or_zero_calibration_cell_is_invalid() {
    let one_row = slide(vec![500_000, 0, 400_000]);
    assert_eq!(
        incident(&one_row, 1_000, 0, PowerMeterLabel::SensorC, PolarizationState::Horizontal),
        Err(ComputationError::InvalidCalibrationCell)
    );
    let two_columns = Slide::new(NumericTable::from_row_major(2, 2, vec![1, 2, 3, 4]).unwrap());
    assert_eq!(
        incident(&two_columns, 1_000, 0, PowerMeterLabel::SensorA, PolarizationState::Vertical),
        Err(ComputationError::InvalidCalibrationCell)
    );
    let zero = slide(vec![0, 0, 400_000, 300_000, 0, 200_000]);
    assert_eq!(
        incident(&zero, 1_000, 0, PowerMeterLabel::SensorA, PolarizationState::Horizontal),
        Err(ComputationError::InvalidCalibrationCell)
    );
    assert_eq!(efficiency(&zero, 1_000, 0, 1_000, 0), Err(ComputationError::InvalidCalibrationCell));
}

#[test]
fn efficiency_formula() {
    // rho = 0.5: efficiency = tc / (2 rc - rc) = tc / rc
    let s = slide(vec![500_000, 0, 400_000, 300_000, 0, 200_000]);
    let e = efficiency(&s, 10_000, 2_000, 5_000, 1_000).unwrap();
    assert_eq!(e, Quotient::new(4_000 * 500_000, 8_000 * 500_000));
    // rho = 0.25: efficiency = tc / (4 rc - rc) = tc / (3 rc)
    let s = slide(vec![250_000, 0, 0, 0, 0, 0]);
    let e = efficiency(&s, 1_000, 0, 600, 0).unwrap();
    assert_eq!(e.numerator * 5, e.denominator);
}

#[test]
fn efficiency_is_transmitted_over_incident_less_reflected() {
    let s = slide(vec![300_000, 0, 700_000, 0, 0, 0]);
    let (rc, tc) = (12_345_i64, 6_789_i64);
    let p = incident(&s, rc, 0, PowerMeterLabel::SensorA, PolarizationState::Horizontal).unwrap();
    let e = efficiency(&s, rc, 0, tc, 0).unwrap();
    let expected = Quotient::new(
        tc as i128 * p.denominator,
        p.numerator - rc as i128 * p.denominator,
    );
    assert_eq!(e, expected);
}

#[test]
fn unit_reflectivity_makes_efficiency_undefined() {
    let s = slide(vec![1_000_000, 0, 0, 0, 0, 0]);
    for (r, t) in [(1, 1), (10_000_000, 5), (i64::MAX, i64::MIN), (-3, 0)] {
        assert_eq!(efficiency(&s, r, 0, t, 0), Err(ComputationError::UndefinedEfficiency));
    }
}

#[test]
fn zero_corrected_reflection_makes_efficiency_undefined() {
    let s = slide(vec![500_000, 0, 0, 0, 0, 0]);
    assert_eq!(efficiency(&s, 7_000, 7_000, 10, 0), Err(ComputationError::UndefinedEfficiency));
}

#[test]
fn instrument_types_are_interchangeable() {
    let s = slide(vec![450_000, 0, 0, 0, 0, 0]);
    let label = PowerMeterLabel::SensorA;
    let pol = PolarizationState::Horizontal;
    let newport = s.compute_efficiency(
        &Newport::new(9_000), &NewportBackground::new(100), &label,
        &Newport::new(4_000), &NewportBackground::new(50), &label, &pol,
    );
    let thorlabs = s.compute_efficiency(
        &ThorLabsPM100A_S120VC_PowerMeterMeasurement::new(9_000, 637_800_000),
        &ThorLabsPM100A_S120VC_PowerMeterMeasurementBackground::new(100), &label,
        &ThorLabsPM100A_S120VC_PowerMeterMeasurement::new(4_000, 300_000_000),
        &ThorLabsPM100A_S120VC_PowerMeterMeasurementBackground::new(50), &label, &pol,
    );
    assert_eq!(newport, thorlabs);
    let newport = s.compute_incident_power(
        &Newport::new(9_000), &NewportBackground::new(100), &label,
        &Newport::new(4_000), &NewportBackground::new(50), &label, &pol,
    );
    let thorlabs = s.compute_incident_power(
        &ThorLabsPM100A_S120VC_PowerMeterMeasurement::new(9_000, 637_800_000),
        &NewportBackground::new(100), &label,
        &Newport::new(1), &ThorLabsPM100A_S120VC_PowerMeterMeasurementBackground::new(0), &label, &pol,
    );
    assert_eq!(newport, thorlabs);
}

#[test]
fn row_indices_of_sensors() {
    assert_eq!(PowerMeterLabel::SensorA.get_computation_parameters_row_index(), 0);
    assert_eq!(PowerMeterLabel::SensorC.get_computation_parameters_row_index(), 1);
}

#[test]
fn table_wrappers() {
    assert!(NumericTable::from_row_major(2, 3, vec![1, 2, 3, 4, 5]).is_none());
    let t = NumericTable::from_row_major(2, 3, vec![1, 2, 3, 4, 5, 6]).unwrap();
    assert_eq!(t.n_rows(), 2);
    assert_eq!(t.n_columns(), 3);
    assert_eq!(t.cell(1, 0), Some(4));
    assert_eq!(t.cell(0, 2), Some(3));
    assert_eq!(t.cell(2, 0), None);
    assert_eq!(t.cell(0, 3), None);
}

// Columns: incident angle, mirror angle, reflected power, transmitted power.
fn trial() -> Trial<NewportBackground, NewportBackground> {
    let data = vec![
        10, 1, 2_000, 1_000, //
        20, 1, 4_000, 500, //
        10, 2, 3_000, 2_000, //
        10, 3, 1_000, 1_000, //
        20, 2, 5_000, 1_500,
    ];
    let table = NumericTable::from_row_major(5, 4, data).unwrap();
    Trial::new(
        String::from("grating"),
        table,
        NewportBackground::new(0),
        NewportBackground::new(1_000),
        3,
        PowerMeterLabel::SensorC,
        2,
        PowerMeterLabel::SensorA,
        0,
        1,
        PolarizationState::Horizontal,
        slide(vec![500_000, 0, 0, 0, 0, 0]),
    )
    .unwrap()
}

#[test]
fn trial_rejects_columns_outside_the_table() {
    let table = NumericTable::from_row_major(1, 4, vec![0, 0, 0, 0]).unwrap();
    let t = Trial::new(
        String::from("bad"),
        table,
        NewportBackground::new(0),
        NewportBackground::new(0),
        4,
        PowerMeterLabel::SensorC,
        2,
        PowerMeterLabel::SensorA,
        0,
        1,
        PolarizationState::Horizontal,
        slide(vec![500_000, 0, 0]),
    );
    assert!(t.is_none());
}

#[test]
fn efficiency_vs_mirror_angle_groups_rows_in_order() {
    let t = trial();
    let out = t.compute_efficiency_vs_mirror_angle(&vec![20, 10]).unwrap();
    assert_eq!(out.len(), 2);
    assert_eq!(out[0].0, 20);
    // rho = 0.5: efficiency = tc / rc, with rc = reflected - 1000
    assert_eq!(
        out[0].1,
        vec![
            (1, Ok(Quotient::new(500 * 500_000, 3_000 * 500_000))),
            (2, Ok(Quotient::new(1_500 * 500_000, 4_000 * 500_000))),
        ]
    );
    assert_eq!(out[1].0, 10);
    assert_eq!(
        out[1].1,
        vec![
            (1, Ok(Quotient::new(1_000 * 500_000, 1_000 * 500_000))),
            (2, Ok(Quotient::new(2_000 * 500_000, 2_000 * 500_000))),
            (3, Err(ComputationError::UndefinedEfficiency)),
        ]
    );
}

#[test]
fn power_vs_mirror_angle_groups_rows_in_order() {
    let t = trial();
    let out = t.compute_power_vs_mirror_angle(&vec![10]).unwrap();
    assert_eq!(
        out[0].1,
        vec![
            (1, Ok(Quotient::new(1_000 * 1_000_000, 500_000))),
            (2, Ok(Quotient::new(2_000 * 1_000_000, 500_000))),
            (3, Ok(Quotient::new(0, 500_000))),
        ]
    );
}

#[test]
fn efficiency_vs_incident_angle_takes_the_first_row() {
    let t = trial();
    let out = t.compute_efficiency_vs_incident_angle(&vec![10, 20]).unwrap();
    assert_eq!(
        out,
        vec![
            (10, Ok(Quotient::new(1_000 * 500_000, 1_000 * 500_000))),
            (20, Ok(Quotient::new(500 * 500_000, 3_000 * 500_000))),
        ]
    );
}

#[test]
fn unknown_incident_angle_fails_the_whole_call() {
    let t = trial();
    assert_eq!(
        t.compute_efficiency_vs_incident_angle(&vec![10, 15]),
        Err(ComputationError::UnknownIncidentAngle)
    );
    assert_eq!(
        t.compute_efficiency_vs_mirror_angle(&vec![30]),
        Err(ComputationError::UnknownIncidentAngle)
    );
    assert_eq!(
        t.compute_power_vs_mirror_angle(&vec![10, 20, 11]),
        Err(ComputationError::UnknownIncidentAngle)
    );
}

#[test]
fn no_requested_angles_give_an_empty_result() {
    let t = trial();
    assert_eq!(t.compute_efficiency_vs_incident_angle(&vec![]), Ok(vec![]));
}

#[test]
fn computation_result_carries_its_kind() {
    let r = ComputationResult {
        value: Quotient::new(1, 2),
        associated_error: None,
        computation_type: ComputationType::EfficiencyVsIncidentAngle,
    };
    assert_eq!(r.computation_type, ComputationType::EfficiencyVsIncidentAngle);
    assert!(r.associated_error.is_none());
    assert_eq!(trial().label(), "grating");
    assert_eq!(r.value.denominator, 2);
}

fn terms(tn: i128, td: i128, rn: i128, rd: i128) -> EfficiencyError {
    EfficiencyError {
        transmitted_term: Quotient::new(tn, td),
        reflected_term: Quotient::new(rn, rd),
    }
}

#[test]
fn efficiency_error_bars_at_each_incident_angle() {
    let t = trial();
    let out = t.compute_efficiency_vs_incident_angle_error(&vec![10, 20]).unwrap();
    // angle 10: rc = tc = 1000 pW, rho = 0.5, readings 2000 pW and 1000 pW both
    // at 0.6%: terms 0.006 and 0.012, summed in quadrature about 0.0134
    assert_eq!(
        out[0],
        (10, Ok(terms(3_000_000_000_000, 500_000_000_000_000, 6_000_000_000_000_000, 500_000_000_000_000_000)))
    );
    // angle 20: rc = 3000 pW, tc = 500 pW, readings 4000 pW at 0.45% and 500 pW at 0.6%
    assert_eq!(
        out[1],
        (20, Ok(terms(1_500_000_000_000, 1_500_000_000_000_000, 4_500_000_000_000_000, 4_500_000_000_000_000_000)))
    );
    assert_eq!(
        t.compute_efficiency_vs_incident_angle_error(&vec![20, 99]),
        Err(ComputationError::UnknownIncidentAngle)
    );
}

#[test]
fn efficiency_error_formula_and_its_limits() {
    let s = slide(vec![500_000, 0, 0, 0, 0, 0]);
    let a = PowerMeterLabel::SensorA;
    let h = PolarizationState::Horizontal;
    let expected = terms(3_000_000_000_000, 500_000_000_000_000, 6_000_000_000_000_000, 500_000_000_000_000_000);
    assert_eq!(s.efficiency_error(1_000, 1_000, 6_000_000, 12_000_000, &a, &h), Ok(expected));
    assert_eq!(s.efficiency_error(-1_000, -1_000, 6_000_000, 12_000_000, &a, &h), Ok(expected));
    // rho = 0.8: |1 - rho| = 0.2
    let s8 = slide(vec![800_000, 0, 0, 0, 0, 0]);
    assert_eq!(
        s8.efficiency_error(2, 3, 5, 7, &a, &h),
        Ok(terms(5 * 800_000, 2 * 200_000 * 1_000_000, 800_000 * 3 * 7, 4 * 200_000 * 1_000_000))
    );
    assert_eq!(s.efficiency_error(0, 1, 1, 1, &a, &h), Err(ComputationError::UndefinedEfficiency));
    let big = i64::MAX as i128 * 2;
    assert_eq!(
        s.efficiency_error(big, 1, i64::MAX as i128, 0, &a, &h),
        Err(ComputationError::Overflow)
    );
    assert_eq!(
        s.efficiency_error(1, 1, 1, 1, &PowerMeterLabel::SensorC, &h),
        Err(ComputationError::InvalidCalibrationCell)
    );
}

#[test]
fn efficiency_error_needs_readings_in_range() {
    let data = vec![10, 1, -5, 1_000];
    let table = NumericTable::from_row_major(1, 4, data).unwrap();
    let t = Trial::new(
        String::from("negative reading"),
        table,
        NewportBackground::new(0),
        NewportBackground::new(0),
        3,
        PowerMeterLabel::SensorC,
        2,
        PowerMeterLabel::SensorA,
        0,
        1,
        PolarizationState::Horizontal,
        slide(vec![500_000, 0, 0]),
    )
    .unwrap();
    assert_eq!(
        t.compute_efficiency_vs_incident_angle_error(&vec![10]),
        Err(ComputationError::OutOfRangeReading)
    );
    assert_eq!(
        t.compute_efficiency_vs_incident_angle_error(&vec![10, 11]),
        Err(ComputationError::UnknownIncidentAngle)
    );
}

#[test]
fn efficiency_error_fails_on_a_reading_above_two_hundred_milliwatts() {
    // the first row at angle 20 reads 0.2 W + 1 pW on the reflected sensor;
    // a later row at the same angle is in range but is not the one used
    let data = vec![
        10, 1, 2_000, 1_000, //
        20, 1, 200_000_000_001, 500, //
        20, 2, 5_000, 1_500,
    ];
    let table = NumericTable::from_row_major(3, 4, data).unwrap();
    let t = Trial::new(
        String::from("saturated"),
        table,
        NewportBackground::new(0),
        NewportBackground::new(1_000),
        3,
        PowerMeterLabel::SensorC,
        2,
        PowerMeterLabel::SensorA,
        0,
        1,
        PolarizationState::Horizontal,
        slide(vec![500_000, 0, 0]),
    )
    .unwrap();
    assert_eq!(
        t.compute_efficiency_vs_incident_angle_error(&vec![10, 20]),
        Err(ComputationError::OutOfRangeReading)
    );
    assert!(t.compute_efficiency_vs_incident_angle_error(&vec![10]).is_ok());
}
