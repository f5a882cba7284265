//! Environmental controller for a small growing enclosure: polls a
//! temperature/humidity sensor over Modbus RTU and drives a fan and a servo
//! with hysteresis rules.

pub mod rtu;
pub mod control;
pub mod bus;
