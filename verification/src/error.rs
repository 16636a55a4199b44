//! Why a store call may fail.

use vstd::prelude::*;

verus! {

/// The failures a store call can report.
///
/// An untrusted identity is not among them: that is an answer, not a failure.
/// Neither is a missing session or a missing identity, which the read calls
/// report as an empty result.
#[derive(Debug, Clone, Copy, PartialEq, Eq, Structural)]
pub enum StoreError {
    /// No one-time pre-key is held under the requested id: it was never
    /// saved, or it has been consumed.
    InvalidPreKeyId,
    /// No signed pre-key is held under the requested id.
    InvalidSignedPreKeyId,
    /// The storage medium could not complete the operation. Nothing was
    /// written.
    StorageFault,
}

} // verus!
