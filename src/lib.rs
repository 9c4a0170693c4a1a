//! Control logic of a networked alarm panel: a flash-backed key-value
//! settings store and the alarm state machine that persists into it.

pub mod alarm;
pub mod buf_writer;
pub mod commands;
pub mod ha_types;
pub mod mac_address;
pub mod settings;
