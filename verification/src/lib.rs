//! Logical control interface for an elevator car's physical I/O.
//!
//! The crate is split into three layers, lowest first:
//!
//! - [`hw_io`]: an in-memory model of the generic port device — digital
//!   bits and analog values addressed by channel — with the five primitives
//!   the real driver offers (set a bit, clear a bit, read a bit, write an
//!   analog value, read an analog value).
//! - [`elev_io`]: the adapter that translates elevator-domain entities
//!   (buttons, lights, sensors, the motor) into channel addresses, validates
//!   floor/button combinations before any port access, and applies the
//!   resulting commands to a port device.
//! - [`motion`]: the patrol state machine that turns floor-sensor and
//!   stop-sensor readings into motor-direction commands.
//!
//! Real hardware access (the foreign driver calls) lives outside this crate;
//! it executes the same [`hw_io::Command`] values that the verified adapter
//! produces.

pub mod err;
pub mod hw_io;
pub mod elev_io;
pub mod motion;
