//! Core of a keyboard input-remapping daemon: device discovery and hot-plug
//! filtering, exclusive-capture validation with bounded retry, and the ordered
//! dispatch of key events through a chain of disambiguation stages into a
//! single output sink.
//!
//! All decision logic lives here, verified; the operating-system edges
//! (device nodes, filesystem notifications, threads) are driven by a thin
//! unverified shell that feeds this library plain values.

pub mod devices;
pub mod kbd_in;
pub mod keys;
pub mod ktrl;
