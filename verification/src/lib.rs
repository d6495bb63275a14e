//! Battery status reporting for peripheral devices.
//!
//! Two acquisition pipelines — BLE GATT characteristic reads and a
//! line-oriented serial command protocol — are normalized into one
//! reporting model.  This crate holds the verified core: protocol
//! parsing, device filtering, the serial query state machine, and the
//! report model with its plain-text and JSON renderers.  The thin
//! transport drivers (actual Bluetooth and serial I/O) live outside.

pub mod bluetooth;
pub mod dygma;
pub mod error;
pub mod permissions;
pub mod report;
pub mod status;
pub mod text;
