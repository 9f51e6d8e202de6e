use vstd::prelude::*;
use rand::RngCore;
use crate::cipher::{KEY_SIZE, NONCE_SIZE};

verus! {

/// Relies on rand::rngs::OsRng with RngCore::fill_bytes: fills the buffer with
/// bytes from the operating system's cryptographic source, and panics rather
/// than fall back to a weaker source when entropy cannot be obtained.
#[verifier::external_body]
fn os_random_bytes(len: usize) -> (r: Vec<u8>)
    ensures
        r@.len() == len,
{
    let mut buf = vec![0u8; len];
    rand::rngs::OsRng.fill_bytes(&mut buf);
    buf
}

/// Generate a fresh 32-byte data encryption key.
pub fn generate_dek() -> (r: Vec<u8>)
    ensures
        r@.len() == KEY_SIZE,
{
    os_random_bytes(KEY_SIZE)
}

/// Generate a fresh 24-byte nonce for the AEAD cipher.
pub fn generate_nonce() -> (r: Vec<u8>)
    ensures
        r@.len() == NONCE_SIZE,
{
    os_random_bytes(NONCE_SIZE)
}

/// Generate a fresh 32-byte folder key, to be shared by a group context.
pub fn generate_folder_key() -> (r: Vec<u8>)
    ensures
        r@.len() == KEY_SIZE,
{
    os_random_bytes(KEY_SIZE)
}

} // verus!
