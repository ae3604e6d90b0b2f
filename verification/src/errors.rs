//! The error taxonomy shared by every component of the library.

use vstd::prelude::*;

verus! {

/// Errors surfaced by the validator, the state store, the hardware gate
/// and the request pipeline.
///
/// - `NotFound`: unknown pin id, unrecognized level token, or missing
///   reference row in the allowed-states table.
/// - `Forbidden`: pin not in use, wrong mode, or a recognized token that
///   the policy disallows.
/// - `RangeError`: pin id not representable in the hardware's addressing
///   width.
/// - `InternalError`: an update that affected no stored record, or a
///   hardware-layer failure.
/// - `ConfigError`: a startup configuration consistency violation.
#[derive(Debug)]
pub enum RpWebError {
    NotFound(String),
    Forbidden(String),
    RangeError(String),
    InternalError(String),
    ConfigError(String),
}

impl RpWebError {
    /// The human-readable message carried by the error.
    pub open spec fn spec_message(&self) -> Seq<char> {
        match self {
            RpWebError::NotFound(m) => m@,
            RpWebError::Forbidden(m) => m@,
            RpWebError::RangeError(m) => m@,
            RpWebError::InternalError(m) => m@,
            RpWebError::ConfigError(m) => m@,
        }
    }

    /// Borrow the message, whichever variant carries it.
    pub fn message(&self) -> (m: &String)
        ensures
            m@ == self.spec_message(),
    {
        match self {
            RpWebError::NotFound(m) => m,
            RpWebError::Forbidden(m) => m,
            RpWebError::RangeError(m) => m,
            RpWebError::InternalError(m) => m,
            RpWebError::ConfigError(m) => m,
        }
    }
}

} // verus!
