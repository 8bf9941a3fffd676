//! Why the logger could not be set up.
use vstd::prelude::*;

verus! {

/// A failure that leaves the process without the logger it asked for.
#[derive(Debug)]
pub enum InitError {
    /// The rolling policy of the log file was refused; the text says why.
    Rotation(String),
    /// The process-wide logger could not be installed; the text says why.
    Install(String),
}

} // verus!
