pub mod power_measurement;
pub mod power_meter;
