//! Errors reported by the codec and the client.

use vstd::prelude::*;

verus! {

/// `std::io::Error`, of which nothing is known here: errors of this type
/// are carried from where they arise to the caller.
#[verifier::external_type_specification]
#[verifier::external_body]
pub struct ExIoError(std::io::Error);

/// Errors returned by the OpenRGB client and codec.
#[derive(Debug)]
pub enum OpenRGBError {
    /// Failed opening connection to OpenRGB server.
    ConnectionError {
        /// OpenRGB server address.
        addr: String,
        /// Source error.
        source: std::io::Error,
    },
    /// Communication failure with OpenRGB server.
    CommunicationError {
        /// Source error.
        source: std::io::Error,
    },
    /// Invalid data encountered while communicating with OpenRGB server.
    ProtocolError(String),
    /// Server does not support operation.
    UnsupportedOperation {
        /// Operation name.
        operation: String,
        /// Protocol version in use by client.
        current_protocol_version: u32,
        /// Minimum required protocol version to use operation.
        min_protocol_version: u32,
    },
}

/// Builds the I/O error that reports a stream ending in the middle of a
/// value, through `std::io::Error::from` on `ErrorKind::UnexpectedEof`.
/// Nothing is claimed of the value: it is carried, never inspected.
#[verifier::external_body]
pub(crate) fn unexpected_eof() -> std::io::Error {
    std::io::Error::from(std::io::ErrorKind::UnexpectedEof)
}

impl OpenRGBError {
    /// The error for a stream that ended before a value was complete.
    pub fn truncated() -> (e: OpenRGBError)
        ensures
            e is CommunicationError,
    {
        OpenRGBError::CommunicationError { source: unexpected_eof() }
    }
}

} // verus!
