//! Diagnosis and operation of the fingerprint subsystem of Windows: the
//! decisions behind its commands, with what they promise stated and proved.
//!
//! The three parts that coordinate resources are state machines that the
//! caller drives, carrying out each action and reporting what came of it:
//! the session guard with its focus window ([`session`]), the enrollment of
//! a finger ([`enroll`]), and the maintenance of the storage databases
//! ([`maintenance`]). The other modules put what the subsystem reports into
//! words and read the reports of the device enumeration.

pub mod cli;
pub mod databases;
pub mod devices;
pub mod drivers;
pub mod elevation;
pub mod enroll;
pub mod error;
pub mod guid;
pub mod json;
pub mod maintenance;
pub mod operations;
pub mod sensors;
pub mod service;
pub mod session;
pub mod text;
pub mod time;
pub mod winbio_helpers;
