//! Identification and enumeration of the AArch64 system registers that a
//! KVM virtual CPU exposes.
//!
//! - [`arm`]: the register identifier, packed from and read back into the
//!   five architectural coordinates, and the width it encodes.
//! - [`catalog`]: the immutable table of known registers.
//! - [`discovery`]: the decisions of the probe-and-resize protocol that lists
//!   a virtual CPU's registers.
//! - [`format`] and [`report`]: the text that a front end prints.
//! - [`reg_info`]: the record that register extraction fills in.
pub mod arm;
pub mod catalog;
pub mod discovery;
pub mod format;
pub mod reg_info;
pub mod report;
