//! The failures that can come out of the binding layer.

use vstd::prelude::*;

verus! {

/// Every way in which an operation of this crate can fail.
#[derive(Clone, Copy, Debug, PartialEq, Eq, Structural)]
pub enum RtcError {
    /// A text field holds an embedded null byte, which a null-terminated
    /// buffer cannot represent.
    InvalidText,
    /// The native side returned a null handle when asked for a connection.
    ConnectionCreationFailed,
    /// The native completion callback reported failure.
    NegotiationFailed,
    /// A connection handle was used after it had been closed.
    UseAfterClose,
    /// Text that came from the native side is not valid UTF-8.
    Utf8DecodingFailed,
}

impl RtcError {
    /// A sentence that says what went wrong.
    pub fn message(&self) -> (r: &'static str)
        ensures
            r@ == match *self {
                RtcError::InvalidText => "text holds an embedded null byte"@,
                RtcError::ConnectionCreationFailed => "the native side created no connection"@,
                RtcError::NegotiationFailed => "the native side created no session description"@,
                RtcError::UseAfterClose => "the connection has been closed"@,
                RtcError::Utf8DecodingFailed => "text from the native side is not valid UTF-8"@,
            },
    {
        match self {
            RtcError::InvalidText => "text holds an embedded null byte",
            RtcError::ConnectionCreationFailed => "the native side created no connection",
            RtcError::NegotiationFailed => "the native side created no session description",
            RtcError::UseAfterClose => "the connection has been closed",
            RtcError::Utf8DecodingFailed => "text from the native side is not valid UTF-8",
        }
    }
}

} // verus!
