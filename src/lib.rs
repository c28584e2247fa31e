//! Soil-moisture watering controller: a two-threshold hysteresis policy, a
//! plant controller over abstract moisture, pump and display capabilities,
//! and the per-tick control step that ties them together.

pub mod control;
pub mod decimal;
pub mod fakes;
pub mod fault;
pub mod laws;
pub mod moisture_detector;
pub mod moisture_reader;
pub mod oled;
pub mod plant;
pub mod policy;
pub mod waterer;
