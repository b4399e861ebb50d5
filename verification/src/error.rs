//! The ways in which a step of an upgrade, or a reload of the configuration,
//! can fail.

use vstd::prelude::*;

verus! {

/// Why a device operation failed.
#[derive(Clone, Copy, Debug, PartialEq, Eq, Structural)]
pub enum DeviceError {
    /// The firmware image could not be opened or read.
    Io,
    /// The request could not be sent, or the response could not be read.
    Transport,
    /// The response body was not JSON where JSON was expected.
    Decode,
}

/// Why a configuration document was turned down. Such an error stays with
/// whoever loads the configuration: no step of an upgrade reports it.
#[derive(Clone, Copy, Debug, PartialEq, Eq, Structural)]
pub enum ConfigError {
    /// The source could not be read.
    Unreadable,
    /// The source document did not parse into the three fields.
    Malformed,
    /// The document parsed, but its `base_url` is empty.
    EmptyBaseUrl,
}

impl DeviceError {
    /// The text of [`DeviceError::describe`].
    pub open spec fn description(self) -> Seq<char> {
        match self {
            DeviceError::Io => "I/O error: the firmware image could not be read"@,
            DeviceError::Transport => "transport error: the device could not be reached"@,
            DeviceError::Decode => "decode error: the device's reply was not valid JSON"@,
        }
    }

    /// A description for people.
    pub fn describe(&self) -> (text: String)
        ensures
            text@ == self.description(),
    {
        match self {
            DeviceError::Io => "I/O error: the firmware image could not be read".to_owned(),
            DeviceError::Transport => "transport error: the device could not be reached".to_owned(),
            DeviceError::Decode => "decode error: the device's reply was not valid JSON".to_owned(),
        }
    }
}

impl ConfigError {
    /// The text of [`ConfigError::describe`].
    pub open spec fn description(self) -> Seq<char> {
        match self {
            ConfigError::Unreadable => "configuration error: the source cannot be read"@,
            ConfigError::Malformed => "configuration error: the document is malformed"@,
            ConfigError::EmptyBaseUrl => "configuration error: base_url is empty"@,
        }
    }

    /// A description for people.
    pub fn describe(&self) -> (text: String)
        ensures
            text@ == self.description(),
    {
        match self {
            ConfigError::Unreadable => "configuration error: the source cannot be read".to_owned(),
            ConfigError::Malformed => "configuration error: the document is malformed".to_owned(),
            ConfigError::EmptyBaseUrl => "configuration error: base_url is empty".to_owned(),
        }
    }
}

} // verus!
