//! Logging setup for a process: which severity threshold, destination and
//! line pattern to install, and what to report once installation has been
//! attempted.
pub mod config;
pub mod error;
pub mod report;
pub mod roll;
