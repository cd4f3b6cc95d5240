//! Verified core for a mobile-device sensor library.
//!
//! Sensor magnitudes are held as scaled integers (fixed-point values), so
//! every range check, calculation and formatting rule can be stated and
//! proved exactly: a hundredth of a unit for acceleration, pressure and
//! magnetic field strength, a tenth for temperatures and headings, and a
//! ten-thousandth of a degree for geographic coordinates.
//!
//! Three layers: plain data records with an error taxonomy (`models`),
//! deterministic-shape mock providers (`mocks`), and a stateless service of
//! validations, calculations and formatters (`services`). The `codec`
//! module gives each record a structured text form with a proved
//! encode/decode round trip; `numfmt` and `parse` hold the verified
//! decimal rendering and scanning they build on.

pub mod codec;
pub mod mocks;
pub mod models;
pub mod numfmt;
pub mod parse;
pub mod services;

pub use models::calculate_heading;
pub use models::get_cardinal_direction;
pub use models::AccelerometerData;
pub use models::GpsData;
pub use models::MagnetometerData;
pub use models::PressureData;
pub use models::SensorError;
pub use models::TemperatureData;
pub use models::WifiNetwork;
pub use services::SensorService;
