use vstd::prelude::*;

verus! {

/// The single closed error domain every fallible operation flows through.
///
/// Each variant carries enough context to diagnose the failure without
/// re-querying the native library: the raw status code or the raw value is
/// preserved verbatim. No variant is ever constructed from a successful
/// native call.
#[derive(Clone, Copy, Debug, PartialEq, Eq, Structural)]
pub enum ErrorValue {
    /// The native call itself returned a non-success status; the status code
    /// is preserved verbatim for the caller.
    NativeFailure(u32),
    /// A byte sequence coming from the native library failed text validation
    /// during conversion.
    EncodingFailure,
    /// The native library returned a discriminant or value outside the set
    /// known to this version of the wrapper; the raw value is preserved.
    UnrecognizedValue(u32),
}

} // verus!
