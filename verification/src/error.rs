//! Errors reported by the machine.
use vstd::prelude::*;

verus! {

/// What can go wrong when a machine is built or restored.
#[derive(Debug)]
pub enum Error {
    /// A value handed in by the caller cannot be used; the text says which.
    InvalidValue(String),
}

} // verus!
