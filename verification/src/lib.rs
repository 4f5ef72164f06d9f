//! Battery-management-system gateway core.
//!
//! The crate bridges a battery pack's CAN telemetry to an inverter's CAN
//! protocol: vendor frame decoders fill a fused, validated battery record,
//! a safety-envelope calculator derives charge/discharge current limits,
//! and a contactor state machine gates the high-voltage relay on the
//! validity and freshness of that record.
//!
//! All physical quantities are carried as scaled integers:
//! cell voltages in millivolts, pack voltage in centivolts, currents in
//! centiamps (signed) or deciamps (limits), temperatures in deci-degrees
//! Celsius, state of charge in deci-percent, and energy in centi-kilowatt-hours.

pub mod frame;
pub mod minmax;
pub mod bms;
pub mod store;
pub mod contactor;
pub mod ze40;
pub mod solax;
pub mod gateway;
pub mod kv;
pub mod cells;
pub mod subslice;
pub mod bytes_writer;
pub mod decimal;
pub mod config;
pub mod errors;
pub mod leds;
pub mod rtc;
pub mod ha;
pub mod discovery;
pub mod http;
pub mod modbus;
pub mod mqtt_format;
pub mod syslog;
