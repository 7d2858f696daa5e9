//! Incident power, efficiency and measurement uncertainty for a
//! diffraction-grating experiment, computed exactly over integer units.
//!
//! Powers are counted in picowatts, wavelengths in femtometres, and
//! reflectivity coefficients and fractional uncertainties in parts per
//! million. Results that are not whole numbers are returned as exact
//! quotients.
pub mod error;
pub mod experiment;
pub mod measurement;
pub mod quotient;
pub mod table;
