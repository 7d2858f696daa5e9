use crate::error::ComputationError;
use crate::experiment::slide::{efficiency_error_of, EfficiencyError, Slide};
use crate::measurement::power_measurement::{
    AbsoluteUncertainty, Background, Efficiency, IncidentPower, Measurement,
};
use crate::measurement::power_meter::newportmodel835powermeter::{
    lemma_newport_uncertainty_nonnegative, newport_uncertainty, NewportModel835PowerMeterMeasurement,
};
use crate::quotient::Quotient;
use crate::table::{table_column_count, table_rows, NumericTable};
use vstd::prelude::*;

verus! {

/// One experiment run: a table of readings, the roles of its columns, the
/// sensors' dark readings, the polarization and the optical element.
///
/// Angles are in whatever integer unit the table uses; powers are in
/// picowatts. Each row's reflected and transmitted powers are read as
/// Newport model 835 readings.
pub struct Trial<BackgroundT, BackgroundR> where
    BackgroundT: Background,
    BackgroundR: Background,
 {
    label: String,
    full_data_set: NumericTable,
    transmitted_sensor_background: BackgroundT,
    reflected_sensor_background: BackgroundR,
    transmitted_power_column_number: u8,
    transmitted_power_meter_label: PowerMeterLabel,
    reflected_power_column_number: u8,
    reflected_power_meter_label: PowerMeterLabel,
    incident_angle_column: u8,
    mirror_angle_column: u8,
    polarization_state: PolarizationState,
    slide: Slide,
}

/// A series of `(angle, value)` points.
pub type Series = Vec<(i64, Result<Quotient, ComputationError>)>;

/// The polarization of the light in an experiment.
#[derive(Debug, Clone, Copy, PartialEq, Eq, Structural)]
pub enum PolarizationState {
    Horizontal,
    Vertical,
}

/// The two power meters of the experiment.
#[derive(Debug, Clone, Copy, PartialEq, Eq, Structural)]
pub enum PowerMeterLabel {
    SensorA,
    SensorC,
}

impl PowerMeterLabel {
    /// The row of the calibration matrix that belongs to this sensor.
    pub open spec fn row_index(self) -> int {
        match self {
            PowerMeterLabel::SensorA => 0,
            PowerMeterLabel::SensorC => 1,
        }
    }

    /// Returns the row of the calibration matrix that belongs to this sensor.
    pub fn get_computation_parameters_row_index(&self) -> (r: u8)
        ensures
            r == self.row_index(),
    {
        match self {
            PowerMeterLabel::SensorA => 0,
            PowerMeterLabel::SensorC => 1,
        }
    }
}

impl PolarizationState {
    /// The column of the calibration matrix that holds the reflectivity for
    /// this polarization.
    pub open spec fn column_index(self) -> int {
        match self {
            PolarizationState::Horizontal => 0,
            PolarizationState::Vertical => 2,
        }
    }
}

/// The result of a computation, with an optional one-sided error of the
/// dependent variable and the kind of computation it comes from.
pub struct ComputationResult<T> {
    pub value: T,
    pub associated_error: Option<T>,
    pub computation_type: ComputationType,
}

/// The computations that a trial offers.
#[derive(Debug, Clone, Copy, PartialEq, Eq, Structural)]
pub enum ComputationType {
    EfficiencyVsMirrorAngle,
    EfficiencyVsIncidentAngle,
    PowerVsMirrorAngle,
}

impl<BackgroundT, BackgroundR> Trial<BackgroundT, BackgroundR> where
    BackgroundT: Background,
    BackgroundR: Background,
 {
    /// The trial's label.
    pub closed spec fn label_text(&self) -> Seq<char> {
        self.label@
    }

    /// Returns the trial's label.
    pub fn label(&self) -> (r: &String)
        ensures
            r@ == self.label_text(),
    {
        &self.label
    }

    /// The rows of the data set.
    pub closed spec fn data(&self) -> Seq<Seq<i64>> {
        table_rows(self.full_data_set)
    }

    /// The column of the incident angle.
    pub closed spec fn incident_angle_index(&self) -> int {
        self.incident_angle_column as int
    }

    /// The column of the mirror angle.
    pub closed spec fn mirror_angle_index(&self) -> int {
        self.mirror_angle_column as int
    }

    /// The efficiency computed from a row's reflected and transmitted powers.
    pub closed spec fn row_efficiency(&self, row: Seq<i64>) -> Result<Quotient, ComputationError> {
        self.slide.efficiency_result(
            row[self.reflected_power_column_number as int]
                - self.reflected_sensor_background.background_level(),
            row[self.transmitted_power_column_number as int]
                - self.transmitted_sensor_background.background_level(),
            self.reflected_power_meter_label,
            self.polarization_state,
        )
    }

    /// The incident power computed from a row's reflected power.
    pub closed spec fn row_incident_power(&self, row: Seq<i64>) -> Result<
        Quotient,
        ComputationError,
    > {
        self.slide.incident_power_result(
            row[self.reflected_power_column_number as int]
                - self.reflected_sensor_background.background_level(),
            self.reflected_power_meter_label,
            self.polarization_state,
        )
    }

    /// The first-order error terms of a row's efficiency, from the
    /// uncertainties of its reflected and transmitted readings.
    pub closed spec fn row_efficiency_error(&self, row: Seq<i64>) -> Result<
        EfficiencyError,
        ComputationError,
    > {
        let reflected = row[self.reflected_power_column_number as int] as int;
        let transmitted = row[self.transmitted_power_column_number as int] as int;
        match newport_uncertainty(reflected) {
            Err(e) => Err(e),
            Ok(ur) => match newport_uncertainty(transmitted) {
                Err(e) => Err(e),
                Ok(ut) => efficiency_error_of(
                    reflected - self.reflected_sensor_background.background_level(),
                    transmitted - self.transmitted_sensor_background.background_level(),
                    ut.numerator as int,
                    ur.numerator as int,
                    self.slide.reflectivity(self.reflected_power_meter_label, self.polarization_state),
                ),
            },
        }
    }

    /// Both readings of a row lie within the Newport calibration ranges.
    pub closed spec fn row_readings_in_range(&self, row: Seq<i64>) -> bool {
        &&& newport_uncertainty(row[self.reflected_power_column_number as int] as int) is Ok
        &&& newport_uncertainty(row[self.transmitted_power_column_number as int] as int) is Ok
    }

    /// The first row with incident angle `angle` has a reading outside the
    /// Newport calibration ranges.
    pub open spec fn reading_out_of_range_at(&self, angle: int) -> bool {
        exists|i: int|
            #![trigger self.is_first_row_at(i, angle)]
            self.is_first_row_at(i, angle) && !self.row_readings_in_range(self.data()[i])
    }

    /// Row `i` is the first row with incident angle `angle`.
    pub open spec fn is_first_row_at(&self, i: int, angle: int) -> bool {
        &&& 0 <= i < self.data().len()
        &&& self.data()[i][self.incident_angle_index()] == angle
        &&& forall|j: int|
            0 <= j < i ==> #[trigger] self.data()[j][self.incident_angle_index()] != angle
    }

    /// The value that a computation of the given kind takes from one row.
    pub open spec fn row_value(&self, row: Seq<i64>, kind: ComputationType) -> Result<
        Quotient,
        ComputationError,
    > {
        match kind {
            ComputationType::PowerVsMirrorAngle => self.row_incident_power(row),
            _ => self.row_efficiency(row),
        }
    }

    /// Every row holds each of the four columns that the trial reads.
    pub closed spec fn wf(&self) -> bool {
        forall|i: int|
            0 <= i < self.data().len() ==> {
                let n = #[trigger] self.data()[i].len();
                &&& self.incident_angle_column < n
                &&& self.mirror_angle_column < n
                &&& self.reflected_power_column_number < n
                &&& self.transmitted_power_column_number < n
            }
    }

    /// The `(mirror angle, value)` points of the first `n` rows whose incident
    /// angle is `angle`, in row order.
    pub open spec fn mirror_series(&self, angle: int, n: nat, kind: ComputationType) -> Seq<
        (i64, Result<Quotient, ComputationError>),
    >
        decreases n,
    {
        if n == 0 {
            seq![]
        } else {
            let previous = self.mirror_series(angle, (n - 1) as nat, kind);
            let row = self.data()[n - 1];
            if row[self.incident_angle_index()] == angle {
                previous.push((row[self.mirror_angle_index()], self.row_value(row, kind)))
            } else {
                previous
            }
        }
    }

    /// Some row of the data set has incident angle `angle`.
    pub open spec fn has_incident_angle(&self, angle: int) -> bool {
        exists|i: int|
            0 <= i < self.data().len() && #[trigger] self.data()[i][self.incident_angle_index()]
                == angle
    }

    /// A trial over `full_data_set`; `None` where one of the four column
    /// numbers is not below the table's column count.
    pub fn new(
        label: String,
        full_data_set: NumericTable,
        transmitted_sensor_background: BackgroundT,
        reflected_sensor_background: BackgroundR,
        transmitted_power_column_number: u8,
        transmitted_power_meter_label: PowerMeterLabel,
        reflected_power_column_number: u8,
        reflected_power_meter_label: PowerMeterLabel,
        incident_angle_column: u8,
        mirror_angle_column: u8,
        polarization_state: PolarizationState,
        slide: Slide,
    ) -> (r: Option<Self>)
        ensures
            r matches Some(t) ==> {
                &&& t.wf()
                &&& t.label_text() == label@
                &&& t.data() == table_rows(full_data_set)
                &&& t.incident_angle_index() == incident_angle_column
                &&& t.mirror_angle_index() == mirror_angle_column
                &&& forall|row: Seq<i64>|
                    #![trigger t.row_efficiency(row)]
                    t.row_efficiency(row) == slide.efficiency_result(
                        row[reflected_power_column_number as int]
                            - reflected_sensor_background.background_level(),
                        row[transmitted_power_column_number as int]
                            - transmitted_sensor_background.background_level(),
                        reflected_power_meter_label,
                        polarization_state,
                    )
                &&& forall|row: Seq<i64>|
                    #![trigger t.row_readings_in_range(row)]
                    t.row_readings_in_range(row) == (newport_uncertainty(
                        row[reflected_power_column_number as int] as int,
                    ) is Ok && newport_uncertainty(
                        row[transmitted_power_column_number as int] as int,
                    ) is Ok)
                &&& forall|row: Seq<i64>|
                    #![trigger t.row_efficiency_error(row)]
                    t.row_efficiency_error(row) == match newport_uncertainty(
                        row[reflected_power_column_number as int] as int,
                    ) {
                        Err(e) => Err(e),
                        Ok(ur) => match newport_uncertainty(
                            row[transmitted_power_column_number as int] as int,
                        ) {
                            Err(e) => Err(e),
                            Ok(ut) => efficiency_error_of(
                                row[reflected_power_column_number as int]
                                    - reflected_sensor_background.background_level(),
                                row[transmitted_power_column_number as int]
                                    - transmitted_sensor_background.background_level(),
                                ut.numerator as int,
                                ur.numerator as int,
                                slide.reflectivity(reflected_power_meter_label, polarization_state),
                            ),
                        },
                    }
                &&& forall|row: Seq<i64>|
                    #![trigger t.row_incident_power(row)]
                    t.row_incident_power(row) == slide.incident_power_result(
                        row[reflected_power_column_number as int]
                            - reflected_sensor_background.background_level(),
                        reflected_power_meter_label,
                        polarization_state,
                    )
            },
            r is Some <==> {
                let n = table_column_count(full_data_set);
                &&& incident_angle_column < n
                &&& mirror_angle_column < n
                &&& reflected_power_column_number < n
                &&& transmitted_power_column_number < n
            },
    {
        let n_columns = full_data_set.n_columns();
        if incident_angle_column as usize >= n_columns || mirror_angle_column as usize
            >= n_columns || reflected_power_column_number as usize >= n_columns
            || transmitted_power_column_number as usize >= n_columns {
            return None;
        }
        Some(
            Trial {
                label,
                full_data_set,
                transmitted_sensor_background,
                reflected_sensor_background,
                transmitted_power_column_number,
                transmitted_power_meter_label,
                reflected_power_column_number,
                reflected_power_meter_label,
                incident_angle_column,
                mirror_angle_column,
                polarization_state,
                slide,
            },
        )
    }

    /// The series of an angle is empty exactly where no row has that angle.
    proof fn lemma_series_empty_iff_absent(&self, angle: int, n: nat, kind: ComputationType)
        requires
            n <= self.data().len(),
        ensures
            self.mirror_series(angle, n, kind).len() == 0 <==> forall|i: int|
                0 <= i < n ==> #[trigger] self.data()[i][self.incident_angle_index()] != angle,
        decreases n,
    {
        if n > 0 {
            self.lemma_series_empty_iff_absent(angle, (n - 1) as nat, kind);
        }
    }

    /// Returns the cell of `row` in `column`.
    fn read(&self, row: usize, column: u8) -> (r: i64)
        requires
            self.wf(),
            row < self.data().len(),
            column == self.incident_angle_column || column == self.mirror_angle_column || column
                == self.reflected_power_column_number || column
                == self.transmitted_power_column_number,
        ensures
            r == self.data()[row as int][column as int],
    {
        match self.full_data_set.cell(row, column as usize) {
            Some(v) => v,
            None => {
                proof {
                    assert(self.data()[row as int].len() > column);
                }
                0
            },
        }
    }

    /// Returns the value that a computation of the given kind takes from a row.
    fn value_at_row(&self, row: usize, kind: ComputationType) -> (r: Result<
        Quotient,
        ComputationError,
    >)
        requires
            self.wf(),
            row < self.data().len(),
        ensures
            r == self.row_value(self.data()[row as int], kind),
    {
        let reflected = NewportModel835PowerMeterMeasurement::new(
            self.read(row, self.reflected_power_column_number),
        );
        let transmitted = NewportModel835PowerMeterMeasurement::new(
            self.read(row, self.transmitted_power_column_number),
        );
        match kind {
            ComputationType::PowerVsMirrorAngle => self.slide.compute_incident_power(
                &reflected,
                &self.reflected_sensor_background,
                &self.reflected_power_meter_label,
                &transmitted,
                &self.transmitted_sensor_background,
                &self.transmitted_power_meter_label,
                &self.polarization_state,
            ),
            _ => self.slide.compute_efficiency(
                &reflected,
                &self.reflected_sensor_background,
                &self.reflected_power_meter_label,
                &transmitted,
                &self.transmitted_sensor_background,
                &self.transmitted_power_meter_label,
                &self.polarization_state,
            ),
        }
    }

    /// Returns the `(mirror angle, value)` points of the rows at an incident
    /// angle, in row order.
    fn series_at(&self, angle: i64, kind: ComputationType) -> (r: Series)
        requires
            self.wf(),
        ensures
            r@ == self.mirror_series(angle as int, self.data().len(), kind),
            r@.len() == 0 <==> !self.has_incident_angle(angle as int),
    {
        let n = self.full_data_set.n_rows();
        let mut points: Series = Vec::new();
        let mut i: usize = 0;
        while i < n
            invariant
                self.wf(),
                n == self.data().len(),
                i <= n,
                points@ == self.mirror_series(angle as int, i as nat, kind),
            decreases n - i,
        {
            let incident = self.read(i, self.incident_angle_column);
            if incident == angle {
                let mirror = self.read(i, self.mirror_angle_column);
                let value = self.value_at_row(i, kind);
                points.push((mirror, value));
            }
            i = i + 1;
        }
        proof {
            self.lemma_series_empty_iff_absent(angle as int, n as nat, kind);
            if points@.len() == 0 {
                assert forall|j: int| 0 <= j < self.data().len() implies #[trigger] self.data()[j][self.incident_angle_index()] != angle by {}
            } else {
                let j = choose|j: int|
                    0 <= j < n && #[trigger] self.data()[j][self.incident_angle_index()] == angle;
                assert(self.data()[j][self.incident_angle_index()] == angle);
            }
        }
        points
    }

    /// Returns, for each requested angle, its mirror-angle series of the given
    /// kind; `UnknownIncidentAngle` where some angle is not in the data set.
    fn series_for_each(&self, incident_angles: &Vec<i64>, kind: ComputationType) -> (r: Result<
        Vec<(i64, Series)>,
        ComputationError,
    >)
        requires
            self.wf(),
        ensures
            r is Ok <==> forall|k: int|
                0 <= k < incident_angles@.len() ==> self.has_incident_angle(
                    #[trigger] incident_angles@[k] as int,
                ),
            r matches Err(e) ==> e == ComputationError::UnknownIncidentAngle,
            r matches Ok(out) ==> {
                &&& out@.len() == incident_angles@.len()
                &&& forall|k: int|
                    0 <= k < out@.len() ==> (#[trigger] out@[k]).0 == incident_angles@[k]
                        && out@[k].1@ == self.mirror_series(
                        incident_angles@[k] as int,
                        self.data().len(),
                        kind,
                    )
            },
    {
        let mut out: Vec<(i64, Series)> = Vec::new();
        let mut k: usize = 0;
        while k < incident_angles.len()
            invariant
                self.wf(),
                k <= incident_angles@.len(),
                out@.len() == k,
                forall|j: int| 0 <= j < k ==> self.has_incident_angle(#[trigger] incident_angles@[j] as int),
                forall|j: int|
                    0 <= j < k ==> (#[trigger] out@[j]).0 == incident_angles@[j] && out@[j].1@
                        == self.mirror_series(incident_angles@[j] as int, self.data().len(), kind),
            decreases incident_angles@.len() - k,
        {
            let angle = incident_angles[k];
            let points = self.series_at(angle, kind);
            if points.len() == 0 {
                return Err(ComputationError::UnknownIncidentAngle);
            }
            out.push((angle, points));
            k = k + 1;
        }
        Ok(out)
    }

    /// Computes, for each requested incident angle, the efficiency at each row
    /// with that angle, paired with the row's mirror angle, in row order. Fails
    /// with `UnknownIncidentAngle` where a requested angle is not in the data set.
    pub fn compute_efficiency_vs_mirror_angle(&self, incident_angles: &Vec<i64>) -> (r: Result<
        Vec<(i64, Series)>,
        ComputationError,
    >)
        requires
            self.wf(),
        ensures
            r is Ok <==> forall|k: int|
                0 <= k < incident_angles@.len() ==> self.has_incident_angle(
                    #[trigger] incident_angles@[k] as int,
                ),
            r matches Err(e) ==> e == ComputationError::UnknownIncidentAngle,
            r matches Ok(out) ==> {
                &&& out@.len() == incident_angles@.len()
                &&& forall|k: int|
                    0 <= k < out@.len() ==> (#[trigger] out@[k]).0 == incident_angles@[k]
                        && out@[k].1@ == self.mirror_series(
                        incident_angles@[k] as int,
                        self.data().len(),
                        ComputationType::EfficiencyVsMirrorAngle,
                    )
            },
    {
        self.series_for_each(incident_angles, ComputationType::EfficiencyVsMirrorAngle)
    }

    /// Computes, for each requested incident angle, the incident power at each
    /// row with that angle, paired with the row's mirror angle, in row order.
    /// Fails with `UnknownIncidentAngle` where a requested angle is not in the
    /// data set.
    pub fn compute_power_vs_mirror_angle(&self, incident_angles: &Vec<i64>) -> (r: Result<
        Vec<(i64, Series)>,
        ComputationError,
    >)
        requires
            self.wf(),
        ensures
            r is Ok <==> forall|k: int|
                0 <= k < incident_angles@.len() ==> self.has_incident_angle(
                    #[trigger] incident_angles@[k] as int,
                ),
            r matches Err(e) ==> e == ComputationError::UnknownIncidentAngle,
            r matches Ok(out) ==> {
                &&& out@.len() == incident_angles@.len()
                &&& forall|k: int|
                    0 <= k < out@.len() ==> (#[trigger] out@[k]).0 == incident_angles@[k]
                        && out@[k].1@ == self.mirror_series(
                        incident_angles@[k] as int,
                        self.data().len(),
                        ComputationType::PowerVsMirrorAngle,
                    )
            },
    {
        self.series_for_each(incident_angles, ComputationType::PowerVsMirrorAngle)
    }

    /// Computes, for each requested incident angle, the efficiency at the first
    /// row with that angle. Fails with `UnknownIncidentAngle` where a requested
    /// angle is not in the data set.
    pub fn compute_efficiency_vs_incident_angle(&self, incident_angles: &Vec<i64>) -> (r: Result<
        Series,
        ComputationError,
    >)
        requires
            self.wf(),
        ensures
            r is Ok <==> forall|k: int|
                0 <= k < incident_angles@.len() ==> self.has_incident_angle(
                    #[trigger] incident_angles@[k] as int,
                ),
            r matches Err(e) ==> e == ComputationError::UnknownIncidentAngle,
            r matches Ok(out) ==> {
                &&& out@.len() == incident_angles@.len()
                &&& forall|k: int|
                    0 <= k < out@.len() ==> #[trigger] out@[k] == (
                        incident_angles@[k],
                        self.mirror_series(
                            incident_angles@[k] as int,
                            self.data().len(),
                            ComputationType::EfficiencyVsIncidentAngle,
                        )[0].1,
                    )
            },
    {
        let all = self.series_for_each(incident_angles, ComputationType::EfficiencyVsIncidentAngle)?;
        let mut out: Series = Vec::new();
        let mut k: usize = 0;
        while k < all.len()
            invariant
                self.wf(),
                all@.len() == incident_angles@.len(),
                k <= all@.len(),
                out@.len() == k,
                forall|j: int|
                    0 <= j < all@.len() ==> (#[trigger] all@[j]).0 == incident_angles@[j]
                        && all@[j].1@ == self.mirror_series(
                        incident_angles@[j] as int,
                        self.data().len(),
                        ComputationType::EfficiencyVsIncidentAngle,
                    ),
                forall|j: int| 0 <= j < all@.len() ==> self.has_incident_angle(#[trigger] incident_angles@[j] as int),
                forall|j: int|
                    0 <= j < k ==> #[trigger] out@[j] == (
                        incident_angles@[j],
                        self.mirror_series(
                            incident_angles@[j] as int,
                            self.data().len(),
                            ComputationType::EfficiencyVsIncidentAngle,
                        )[0].1,
                    ),
            decreases all@.len() - k,
        {
            let angle = all[k].0;
            proof {
                self.lemma_series_empty_iff_absent(
                    angle as int,
                    self.data().len(),
                    ComputationType::EfficiencyVsIncidentAngle,
                );
                assert(self.has_incident_angle(incident_angles@[k as int] as int));
            }
            let first = all[k].1[0].1;
            out.push((angle, first));
            k = k + 1;
        }
        Ok(out)
    }

    /// Returns the first row with incident angle `angle`, if there is one.
    fn first_row_at(&self, angle: i64) -> (r: Option<usize>)
        requires
            self.wf(),
        ensures
            r matches Some(i) ==> self.is_first_row_at(i as int, angle as int),
            r is None ==> !self.has_incident_angle(angle as int),
    {
        let n = self.full_data_set.n_rows();
        let mut i: usize = 0;
        while i < n
            invariant
                self.wf(),
                n == self.data().len(),
                i <= n,
                forall|j: int|
                    0 <= j < i ==> #[trigger] self.data()[j][self.incident_angle_index()] != angle,
            decreases n - i,
        {
            if self.read(i, self.incident_angle_column) == angle {
                return Some(i);
            }
            i = i + 1;
        }
        None
    }

    /// Returns the first-order error terms of the efficiency at a row.
    fn efficiency_error_at_row(&self, row: usize) -> (r: Result<EfficiencyError, ComputationError>)
        requires
            self.wf(),
            row < self.data().len(),
        ensures
            r == self.row_efficiency_error(self.data()[row as int]),
    {
        let reflected = NewportModel835PowerMeterMeasurement::new(
            self.read(row, self.reflected_power_column_number),
        );
        let transmitted = NewportModel835PowerMeterMeasurement::new(
            self.read(row, self.transmitted_power_column_number),
        );
        let ur = reflected.uncertainty()?;
        let ut = transmitted.uncertainty()?;
        proof {
            lemma_newport_uncertainty_nonnegative(reflected.value as int);
            lemma_newport_uncertainty_nonnegative(transmitted.value as int);
        }
        let rc = reflected.value() as i128 - self.reflected_sensor_background.background() as i128;
        let tc = transmitted.value() as i128 - self.transmitted_sensor_background.background()
            as i128;
        self.slide.efficiency_error(
            rc,
            tc,
            ut.numerator,
            ur.numerator,
            &self.reflected_power_meter_label,
            &self.polarization_state,
        )
    }

    /// There is at most one first row with a given incident angle.
    proof fn lemma_first_row_unique(&self, i: int, j: int, angle: int)
        requires
            self.is_first_row_at(i, angle),
            self.is_first_row_at(j, angle),
        ensures
            i == j,
    {
        if i < j {
            assert(self.data()[i][self.incident_angle_index()] == angle);
        } else if j < i {
            assert(self.data()[j][self.incident_angle_index()] == angle);
        }
    }

    /// Computes, for each requested incident angle, the first-order error
    /// terms of the efficiency that `compute_efficiency_vs_incident_angle`
    /// gives: that of the first row with that angle. The one-sided error is the
    /// two terms summed in quadrature. Fails with `UnknownIncidentAngle` where a
    /// requested angle is not in the data set; else with `OutOfRangeReading`
    /// where a reading of a row it uses lies outside the calibration ranges.
    pub fn compute_efficiency_vs_incident_angle_error(&self, incident_angles: &Vec<i64>) -> (r:
        Result<Vec<(i64, Result<EfficiencyError, ComputationError>)>, ComputationError>)
        requires
            self.wf(),
        ensures
            r matches Err(e) ==> e == ComputationError::UnknownIncidentAngle || e
                == ComputationError::OutOfRangeReading,
            (r == Err::<Vec<(i64, Result<EfficiencyError, ComputationError>)>, ComputationError>(
                ComputationError::UnknownIncidentAngle,
            )) <==> !(forall|k: int|
                0 <= k < incident_angles@.len() ==> self.has_incident_angle(
                    #[trigger] incident_angles@[k] as int,
                )),
            (r == Err::<Vec<(i64, Result<EfficiencyError, ComputationError>)>, ComputationError>(
                ComputationError::OutOfRangeReading,
            )) <==> ((forall|k: int|
                0 <= k < incident_angles@.len() ==> self.has_incident_angle(
                    #[trigger] incident_angles@[k] as int,
                )) && exists|k: int|
                0 <= k < incident_angles@.len() && self.reading_out_of_range_at(
                    #[trigger] incident_angles@[k] as int,
                )),
            r matches Ok(out) ==> {
                &&& out@.len() == incident_angles@.len()
                &&& forall|k: int|
                    0 <= k < out@.len() ==> (#[trigger] out@[k]).0 == incident_angles@[k] && exists|
                        i: int,
                    |
                        #![trigger self.is_first_row_at(i, incident_angles@[k] as int)]
                        self.is_first_row_at(i, incident_angles@[k] as int) && out@[k].1
                            == self.row_efficiency_error(self.data()[i])
            },
    {
        let mut rows: Vec<usize> = Vec::new();
        let mut k: usize = 0;
        while k < incident_angles.len()
            invariant
                self.wf(),
                k <= incident_angles@.len(),
                rows@.len() == k,
                forall|j: int|
                    0 <= j < k ==> self.is_first_row_at(
                        #[trigger] rows@[j] as int,
                        incident_angles@[j] as int,
                    ),
            decreases incident_angles@.len() - k,
        {
            match self.first_row_at(incident_angles[k]) {
                Some(row) => rows.push(row),
                None => {
                    proof {
                        assert(!self.has_incident_angle(incident_angles@[k as int] as int));
                    }
                    return Err(ComputationError::UnknownIncidentAngle);
                },
            }
            k = k + 1;
        }
        proof {
            assert forall|j: int| 0 <= j < incident_angles@.len() implies self.has_incident_angle(
                #[trigger] incident_angles@[j] as int,
            ) by {
                assert(self.is_first_row_at(rows@[j] as int, incident_angles@[j] as int));
                assert(self.data()[rows@[j] as int][self.incident_angle_index()]
                    == incident_angles@[j]);
            }
        }
        let mut out: Vec<(i64, Result<EfficiencyError, ComputationError>)> = Vec::new();
        let mut k: usize = 0;
        while k < rows.len()
            invariant
                self.wf(),
                rows@.len() == incident_angles@.len(),
                k <= rows@.len(),
                out@.len() == k,
                forall|j: int|
                    0 <= j < rows@.len() ==> self.is_first_row_at(
                        #[trigger] rows@[j] as int,
                        incident_angles@[j] as int,
                    ),
                forall|j: int|
                    0 <= j < incident_angles@.len() ==> self.has_incident_angle(
                        #[trigger] incident_angles@[j] as int,
                    ),
                forall|j: int|
                    0 <= j < k ==> !self.reading_out_of_range_at(
                        #[trigger] incident_angles@[j] as int,
                    ),
                forall|j: int|
                    0 <= j < k ==> (#[trigger] out@[j]).0 == incident_angles@[j] && exists|i: int|
                        #![trigger self.is_first_row_at(i, incident_angles@[j] as int)]
                        self.is_first_row_at(i, incident_angles@[j] as int) && out@[j].1
                            == self.row_efficiency_error(self.data()[i]),
            decreases rows@.len() - k,
        {
            let row = rows[k];
            let angle = incident_angles[k];
            let error = self.efficiency_error_at_row(row);
            proof {
                assert(self.is_first_row_at(row as int, angle as int));
            }
            if let Err(ComputationError::OutOfRangeReading) = error {
                proof {
                    assert(!self.row_readings_in_range(self.data()[row as int]));
                    assert(self.reading_out_of_range_at(incident_angles@[k as int] as int));
                }
                return Err(ComputationError::OutOfRangeReading);
            }
            proof {
                assert(self.row_readings_in_range(self.data()[row as int]));
                assert forall|i: int|
                    #[trigger] self.is_first_row_at(i, angle as int) implies self.row_readings_in_range(
                    self.data()[i],
                ) by {
                    self.lemma_first_row_unique(i, row as int, angle as int);
                }
            }
            out.push((angle, error));
            proof {
                assert(out@[k as int].1 == self.row_efficiency_error(self.data()[row as int]));
            }
            k = k + 1;
        }
        Ok(out)
    }
}

} // verus!