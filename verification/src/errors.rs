use vstd::prelude::*;

verus! {

/// Failure classes of the engine.
///
/// Input validation failures are detected before any cryptographic work runs
/// and are always recoverable by fixing the input. Authentication failures
/// deliberately do not distinguish a wrong key from tampered ciphertext, so
/// that callers (and attackers) get no oracle for which of the two happened.
#[derive(Clone, Copy, Debug, PartialEq, Eq, Structural)]
pub enum CryptoError {
    /// A key, nonce or DEK had the wrong byte length.
    InputValidation,
    /// An AEAD tag mismatch or a sealed-box open failure.
    Authentication,
}

} // verus!
