//! Resumable, progress-reporting downloads: the decisions behind each transfer
//! (target filename, resume offset, open mode, byte accounting, batch outcome),
//! stated as contracts and proved. The network, the disk and the display are
//! driven by the caller, which hands the library plain values.
pub mod batch;
pub mod error;
pub mod filename;
pub mod outcome;
pub mod probe;
pub mod transfer;
