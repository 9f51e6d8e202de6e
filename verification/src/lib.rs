//! Envelope-encryption engine.
//!
//! File contents are protected with a fresh per-file symmetric key (the data
//! encryption key, DEK) under XChaCha20-Poly1305, and the DEK itself is
//! protected by one of two wrapping mechanisms: an asymmetric sealed box that
//! binds it to a recipient's X25519 public key, or symmetric AEAD wrapping
//! under a pre-shared 32-byte folder key. All operations work on raw byte
//! buffers; any textual encoding of keys, nonces or ciphertexts is the
//! caller's concern.

pub mod cipher;
pub mod engine;
pub mod errors;
pub mod folder;
pub mod laws;
pub mod rng;
pub mod sealed;
pub mod sharing;
