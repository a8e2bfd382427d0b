use vstd::prelude::*;

verus! {

/// Failure categories of the container-control core.
///
/// Native-call failures are opaque beyond their category: the native library
/// reports only a boolean or a negative sentinel, so each operation maps that
/// outcome to the one variant named for it.
#[derive(Clone, Copy, Debug, PartialEq, Eq, Structural)]
pub enum Error {
    /// Byte or text content unsuitable for native transfer (an embedded NUL).
    InvalidInput,
    /// A numeric parameter outside its allowed range.
    InvalidArgument,
    /// Handle construction failed: the native lookup returned a null handle.
    NotFound,
    /// The calling process may not control the container.
    PermissionDenied,
    /// The native start call reported failure.
    StartFailed,
    /// The native stop call reported failure.
    StopFailed,
    /// The native shutdown call reported failure (including timeout expiry,
    /// which the native library does not distinguish from other causes).
    ShutdownFailed,
    /// The native console-attach call reported failure.
    TerminalAttachFailed,
    /// The native log initialization call reported failure.
    LogInitFailed,
    /// The native enumeration call reported a negative count.
    EnumerationFailed,
    /// The native configuration lookup yielded no value for the key.
    ConfigKeyNotFound,
    /// Native bytes did not decode as valid text.
    InvalidEncoding,
}

} // verus!
