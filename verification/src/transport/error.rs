//! Transport error type.
use vstd::prelude::*;

verus! {

/// Unified error type for transport operations.
///
/// It gives one interface over the different Aeron client implementations
/// and lets application code handle failures uniformly.
#[derive(Debug)]
#[non_exhaustive]
pub enum TransportError {
    /// Back-pressure: the publication buffer is full, retry later.
    BackPressure,
    /// Connection-related error (not connected, closed, ...).
    Connection(String),
    /// Backend-specific error with a descriptive message.
    Backend(String),
    /// Invalid operation or parameters.
    Invalid(String),
}

/// The human-readable description of a transport error.
pub open spec fn transport_error_text(e: TransportError) -> Seq<char> {
    match e {
        TransportError::BackPressure => "Back-pressure: buffer full"@,
        TransportError::Connection(msg) => "Connection error: "@ + msg@,
        TransportError::Backend(msg) => "Backend error: "@ + msg@,
        TransportError::Invalid(msg) => "Invalid operation: "@ + msg@,
    }
}

impl TransportError {
    /// Renders the error as text, e.g. `Connection error: Not connected`.
    pub fn to_string(&self) -> (s: String)
        ensures
            s@ == transport_error_text(*self),
    {
        match self {
            TransportError::BackPressure => String::from_str("Back-pressure: buffer full"),
            TransportError::Connection(msg) => {
                let mut s = String::from_str("Connection error: ");
                s.append(msg.as_str());
                s
            },
            TransportError::Backend(msg) => {
                let mut s = String::from_str("Backend error: ");
                s.append(msg.as_str());
                s
            },
            TransportError::Invalid(msg) => {
                let mut s = String::from_str("Invalid operation: ");
                s.append(msg.as_str());
                s
            },
        }
    }
}

} // verus!
