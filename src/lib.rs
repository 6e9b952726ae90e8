//! Register and bit-field access over a byte-oriented bus, with the
//! calibration and compensation logic of a BME680 environmental sensor.
//!
//! - `chip_map`: field descriptors, field maps, and the bit arithmetic of a
//!   field within its register.
//! - `chip`: a device on a bus, with register and field operations whose
//!   contracts describe every bus transaction they issue.
//! - `bme680_map`: the BME680 register map.
//! - `bme680`: calibration constants, temperature compensation and heater
//!   targets of the BME680.
//! - `names`: exact name matching and numbered field names.

pub mod bme680;
pub mod bme680_map;
pub mod chip;
pub mod chip_map;
pub mod names;
