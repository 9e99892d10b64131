use vstd::prelude::*;

verus! {

/// Why an exchange failed; each kind can be told apart by the caller.
#[derive(Clone, Copy, Debug, PartialEq, Eq, Structural)]
pub enum TransformError {
    /// The point could not be serialised (a coordinate that is not finite, or
    /// a failure inside the codec).
    EncodingError,
    /// The connection could not be made, the transfer broke off, or the
    /// service answered with a code outside the success class.
    TransportError,
    /// No answer came before the configured deadline.
    Timeout,
    /// The response body is not a polar value under the requested encoding.
    DecodingError,
    /// The selected transport does not carry the selected encoding.
    ConfigurationError,
}

} // verus!
