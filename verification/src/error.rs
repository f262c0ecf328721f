//! Failure kinds shared by every component.

use vstd::prelude::*;
use vstd::string::StringExecFns;

verus! {

/// General coding errors.
#[derive(Debug, Clone, PartialEq, Eq)]
pub enum Error {
    /// Invalid input data.
    InvalidData,
    /// A coding operation needs more data to be completed.
    MoreDataNeeded,
    /// Incomplete input configuration.
    ConfigurationIncomplete,
    /// Invalid input configuration.
    ConfigurationInvalid,
    /// Unsupported requested feature.
    Unsupported(String),
}

/// A specialized `Result` type for coding operations.
pub type Result<T> = core::result::Result<T, Error>;

impl Error {
    /// The text that describes this error to a person.
    pub open spec fn spec_message(self) -> Seq<char> {
        match self {
            Error::InvalidData => "Invalid Data"@,
            Error::MoreDataNeeded => "Additional data needed"@,
            Error::ConfigurationIncomplete => "Configuration Incomplete"@,
            Error::ConfigurationInvalid => "Configuration Invalid"@,
            Error::Unsupported(feature) => "Unsupported feature "@ + feature@,
        }
    }

    /// Renders the error as text: a fixed phrase for each kind, followed by
    /// the feature's name where one is carried.
    pub fn message(&self) -> (text: String)
        ensures
            text@ == self.spec_message(),
    {
        match self {
            Error::InvalidData => "Invalid Data".to_owned(),
            Error::MoreDataNeeded => "Additional data needed".to_owned(),
            Error::ConfigurationIncomplete => "Configuration Incomplete".to_owned(),
            Error::ConfigurationInvalid => "Configuration Invalid".to_owned(),
            Error::Unsupported(feature) => {
                "Unsupported feature ".to_owned().concat(feature.as_str())
            },
        }
    }
}

} // verus!
