use vstd::prelude::*;

verus! {

/// Why an operation on a device failed.
#[derive(Debug, Clone, Copy, PartialEq, Eq, Structural)]
pub enum SonoffError {
    /// The HTTP exchange failed: no connection, or a status outside 200..=299.
    TransportError,
    /// A request or a reply is not JSON of the expected shape.
    SerializationError,
    /// The reply envelope carries no `data` where a typed result is required.
    EmptyResponseData,
    /// A command was given without the sub-command it needs.
    InvalidCommand,
}

impl SonoffError {
    /// A short text for the user.
    pub fn message(&self) -> (text: &'static str)
        ensures
            text@ == match *self {
                SonoffError::TransportError => "HTTP request failed"@,
                SonoffError::SerializationError => "Malformed JSON"@,
                SonoffError::EmptyResponseData => "Bad response from device"@,
                SonoffError::InvalidCommand => "Invalid command"@,
            },
    {
        match self {
            SonoffError::TransportError => "HTTP request failed",
            SonoffError::SerializationError => "Malformed JSON",
            SonoffError::EmptyResponseData => "Bad response from device",
            SonoffError::InvalidCommand => "Invalid command",
        }
    }
}

} // verus!
