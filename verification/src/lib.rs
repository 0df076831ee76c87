//! Discrete core of a Hall-sensored brushless-DC motor drive.
//!
//! The crate holds the integer and state-machine logic of the drive: Hall
//! capture and commutation-index tracking, six-step patterns, space-vector
//! sector selection, the calibration and mode state machines, the wire codecs
//! and the persisted configuration record. Real-valued quantities cross the
//! interface as IEEE-754 single-precision bit patterns (`u32`).

pub mod hall_sensor;
pub mod hall_tim;
pub mod calibration;
pub mod six_step;
pub mod control_mode;
pub mod le_bytes;
pub mod can_ids;
pub mod can_protocol;
pub mod config_storage;
pub mod commands;
pub mod voltage_monitor;
pub mod state;
pub mod svpwm;
pub mod shaft_position;
pub mod transforms;
pub mod benchmark;
pub mod can_setup;
pub mod connection;
