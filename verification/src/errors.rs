//! Error taxonomy of the controller.

use vstd::prelude::*;

verus! {

/// Every failure the controller can surface.
///
/// `InvalidValue` covers bad or missing configuration data, `DockerErr` any
/// failed runtime operation or an observation with missing fields,
/// `ConflictedWithOther` an identity collision with a differently imaged or
/// inconsistently stated runtime entity, `IOError` a failure of the control
/// channel, and `Unknown` a state string the controller does not recognize.
#[derive(Clone, Copy, Debug, PartialEq, Eq, Structural)]
pub enum ArunError {
    InvalidValue,
    DockerErr,
    ConflictedWithOther,
    IOError,
    Unknown,
}

impl ArunError {
    /// A short human-readable description of the error.
    pub fn desc(&self) -> (r: String)
        ensures
            *self is InvalidValue ==> r@ == "Invalid Parameter"@,
            *self is DockerErr ==> r@ == "Docker error"@,
            *self is ConflictedWithOther ==> r@ == "Another app with same name exists"@,
            *self is IOError ==> r@ == "IO error"@,
            *self is Unknown ==> r@ == "Unknown error"@,
    {
        match self {
            ArunError::InvalidValue => String::from_str("Invalid Parameter"),
            ArunError::DockerErr => String::from_str("Docker error"),
            ArunError::ConflictedWithOther => String::from_str("Another app with same name exists"),
            ArunError::IOError => String::from_str("IO error"),
            ArunError::Unknown => String::from_str("Unknown error"),
        }
    }
}

} // verus!
