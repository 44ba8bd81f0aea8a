//! The failures that callers of this crate can recover from.

use vstd::prelude::*;
use vstd::string::*;

verus! {

/// Why a definition or a registration was refused.
#[derive(Clone, Copy, Debug, PartialEq, Eq, Structural)]
pub enum Error {
    /// The element name is registered already.
    AlreadyDefined,
    /// The element name holds no separator, or a template has rendered
    /// nothing.
    InvalidConfiguration,
}

/// What `Error::message` says of an element name that is registered already.
pub const ALREADY_DEFINED: &'static str = "Custom Element has already been defined";

/// What `Error::message` says of a configuration that is refused.
pub const INVALID_CONFIGURATION: &'static str = "Custom Element configuration is not valid";

impl Error {
    /// The text of the failure, as it is handed to the host.
    pub fn message(&self) -> (text: String)
        ensures
            text@ == match *self {
                Error::AlreadyDefined => ALREADY_DEFINED@,
                Error::InvalidConfiguration => INVALID_CONFIGURATION@,
            },
    {
        match self {
            Error::AlreadyDefined => String::from_str(ALREADY_DEFINED),
            Error::InvalidConfiguration => String::from_str(INVALID_CONFIGURATION),
        }
    }
}

} // verus!
