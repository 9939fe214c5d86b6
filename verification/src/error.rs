//! The closed set of error kinds reported by this crate.

use vstd::prelude::*;

verus! {

/// Every failure in the crate is reported as one of these kinds, each
/// carrying a human-readable message.
#[derive(Debug)]
pub enum Error {
    /// A transport-level serial failure not covered by a more specific kind.
    SerialError(String),
    /// The port could not be opened.
    OpenError(String),
    /// The port could not be closed.
    CloseError(String),
    /// Reading from the port failed, or the port was not open.
    ReadError(String),
    /// Writing to the port failed, or the port was not open.
    WriteError(String),
    /// A pattern, expression or line could not be parsed.
    ParseError(String),
    /// Device enumeration failed or no device is present.
    DeviceNotFound(String),
    /// The port configuration is invalid.
    ConfigError(String),
    /// A wrapped low-level I/O failure.
    IoError(String),
}

impl Error {
    /// The message carried by this error, without its kind prefix.
    pub fn message(&self) -> (r: &str)
        ensures
            r@ == self.spec_message(),
    {
        match self {
            Error::SerialError(s) => s.as_str(),
            Error::OpenError(s) => s.as_str(),
            Error::CloseError(s) => s.as_str(),
            Error::ReadError(s) => s.as_str(),
            Error::WriteError(s) => s.as_str(),
            Error::ParseError(s) => s.as_str(),
            Error::DeviceNotFound(s) => s.as_str(),
            Error::ConfigError(s) => s.as_str(),
            Error::IoError(s) => s.as_str(),
        }
    }

    /// The message carried by this error.
    pub open spec fn spec_message(&self) -> Seq<char> {
        match self {
            Error::SerialError(s) => s@,
            Error::OpenError(s) => s@,
            Error::CloseError(s) => s@,
            Error::ReadError(s) => s@,
            Error::WriteError(s) => s@,
            Error::ParseError(s) => s@,
            Error::DeviceNotFound(s) => s@,
            Error::ConfigError(s) => s@,
            Error::IoError(s) => s@,
        }
    }
}

} // verus!
