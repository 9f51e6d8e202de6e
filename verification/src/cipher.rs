use vstd::prelude::*;
use crate::errors::CryptoError;
use chacha20poly1305::aead::{Aead, KeyInit};
use chacha20poly1305::{Key, XChaCha20Poly1305, XNonce};

verus! {

/// Byte length of an AEAD key (and of every DEK and folder key): 256 bits.
pub const KEY_SIZE: usize = 32;

/// Byte length of an XChaCha20 nonce: 192 bits.
pub const NONCE_SIZE: usize = 24;

/// Byte length of the Poly1305 tag embedded at the end of every ciphertext.
pub const TAG_SIZE: usize = 16;

/// Longest plaintext the stream cipher accepts under one nonce: the first of
/// its 2^32 64-byte keystream blocks keys the Poly1305 authenticator, leaving
/// 2^32 - 2 whole blocks of keystream for the payload.
pub const MAX_MESSAGE_LEN: u64 = 274877906816;

/// Longest ciphertext decryption accepts: the longest message plus the
/// 16-byte tag. No encryption can produce a longer one.
pub const MAX_CIPHERTEXT_LEN: u64 = 274877906832;

/// The ciphertext (payload followed by the 16-byte tag) that
/// XChaCha20-Poly1305 produces for a key, a nonce and a plaintext; the
/// construction is deterministic, a pure function of these three inputs.
pub uninterp spec fn aead_enc(key: Seq<u8>, nonce: Seq<u8>, plaintext: Seq<u8>) -> Seq<u8>;

/// What XChaCha20-Poly1305 decryption yields for a key, a nonce and a
/// ciphertext: the plaintext when the embedded tag authenticates, nothing
/// otherwise; decryption too is a pure function of its three inputs.
pub uninterp spec fn aead_dec(key: Seq<u8>, nonce: Seq<u8>, ciphertext: Seq<u8>) -> Option<Seq<u8>>;

/// A plaintext length this machine and the cipher can process in one call.
pub open spec fn fits_aead(len: nat) -> bool {
    len <= MAX_MESSAGE_LEN && len + TAG_SIZE <= usize::MAX
}

/// Relies on chacha20poly1305::XChaCha20Poly1305 (Aead::encrypt): deterministic
/// in key, nonce and plaintext; appends a 16-byte Poly1305 tag; succeeds for
/// every plaintext within the keystream capacity left after the authenticator
/// key is derived (the requires excludes longer ones, on which the stream
/// cipher would panic); the result decrypts back to the plaintext under the
/// same key and nonce.
#[verifier::external_body]
fn xchacha_encrypt(key: &Vec<u8>, nonce: &Vec<u8>, plaintext: &Vec<u8>) -> (r: Vec<u8>)
    requires
        key@.len() == KEY_SIZE,
        nonce@.len() == NONCE_SIZE,
        fits_aead(plaintext@.len()),
    ensures
        r@ == aead_enc(key@, nonce@, plaintext@),
        r@.len() == plaintext@.len() + TAG_SIZE,
        aead_dec(key@, nonce@, r@) == Some(plaintext@),
{
    let cipher = XChaCha20Poly1305::new(Key::from_slice(key.as_slice()));
    let nonce = XNonce::from_slice(nonce.as_slice());
    cipher.encrypt(nonce, plaintext.as_slice()).expect("plaintext length within cipher bounds")
}

/// Relies on chacha20poly1305::XChaCha20Poly1305 (Aead::decrypt): deterministic;
/// yields a plaintext 16 bytes shorter than the ciphertext when the embedded
/// tag authenticates, and an undistinguished error otherwise. The requires
/// excludes ciphertexts past the keystream capacity, on which the stream
/// cipher would panic after tag verification.
#[verifier::external_body]
fn xchacha_decrypt(key: &Vec<u8>, nonce: &Vec<u8>, ciphertext: &Vec<u8>) -> (r: Option<Vec<u8>>)
    requires
        key@.len() == KEY_SIZE,
        nonce@.len() == NONCE_SIZE,
        ciphertext@.len() <= MAX_CIPHERTEXT_LEN,
    ensures
        r matches Some(m) ==> aead_dec(key@, nonce@, ciphertext@) == Some(m@)
            && m@.len() + TAG_SIZE == ciphertext@.len(),
        r is None ==> aead_dec(key@, nonce@, ciphertext@) is None,
{
    let cipher = XChaCha20Poly1305::new(Key::from_slice(key.as_slice()));
    let nonce = XNonce::from_slice(nonce.as_slice());
    cipher.decrypt(nonce, ciphertext.as_slice()).ok()
}

/// AEAD-encrypt a whole buffer under a 32-byte key and a 24-byte nonce.
///
/// The last clause of the contract is the round-trip law: the returned
/// ciphertext decrypts back to `plaintext` under the same key and nonce.
pub fn encrypt(plaintext: &Vec<u8>, key: &Vec<u8>, nonce: &Vec<u8>) -> (r: Result<Vec<u8>, CryptoError>)
    ensures
        r is Ok <==> key@.len() == KEY_SIZE && nonce@.len() == NONCE_SIZE && fits_aead(plaintext@.len()),
        r is Err ==> r == Err::<Vec<u8>, CryptoError>(CryptoError::InputValidation),
        r matches Ok(c) ==> c@ == aead_enc(key@, nonce@, plaintext@)
            && c@.len() == plaintext@.len() + TAG_SIZE
            && aead_dec(key@, nonce@, c@) == Some(plaintext@),
{
    if key.len() != KEY_SIZE || nonce.len() != NONCE_SIZE {
        return Err(CryptoError::InputValidation);
    }
    if plaintext.len() as u64 > MAX_MESSAGE_LEN || plaintext.len() > usize::MAX - TAG_SIZE {
        return Err(CryptoError::InputValidation);
    }
    Ok(xchacha_encrypt(key, nonce, plaintext))
}

/// Decryption inputs of the right shape: a 32-byte key, a 24-byte nonce, and
/// a ciphertext no longer than any encryption could produce.
pub open spec fn decryptable_shape(key: Seq<u8>, nonce: Seq<u8>, ciphertext: Seq<u8>) -> bool {
    key.len() == KEY_SIZE && nonce.len() == NONCE_SIZE && ciphertext.len() <= MAX_CIPHERTEXT_LEN
}

/// AEAD-decrypt a whole buffer. A key, nonce or ciphertext of an impossible
/// shape is rejected before any cryptographic work; after that, failure is
/// the undistinguished authentication error, whether from a wrong key or
/// from tampering.
pub fn decrypt(ciphertext: &Vec<u8>, key: &Vec<u8>, nonce: &Vec<u8>) -> (r: Result<Vec<u8>, CryptoError>)
    ensures
        r == Err::<Vec<u8>, CryptoError>(CryptoError::InputValidation) <==> !decryptable_shape(
            key@,
            nonce@,
            ciphertext@,
        ),
        decryptable_shape(key@, nonce@, ciphertext@) ==> ((r is Ok) <==> aead_dec(
            key@,
            nonce@,
            ciphertext@,
        ) is Some),
        r matches Ok(m) ==> aead_dec(key@, nonce@, ciphertext@) == Some(m@)
            && m@.len() + TAG_SIZE == ciphertext@.len(),
        (decryptable_shape(key@, nonce@, ciphertext@) && r is Err) ==> r == Err::<
            Vec<u8>,
            CryptoError,
        >(CryptoError::Authentication),
{
    if key.len() != KEY_SIZE || nonce.len() != NONCE_SIZE || ciphertext.len() as u64
        > MAX_CIPHERTEXT_LEN {
        return Err(CryptoError::InputValidation);
    }
    match xchacha_decrypt(key, nonce, ciphertext) {
        Some(m) => Ok(m),
        None => Err(CryptoError::Authentication),
    }
}

/// The relation between a (ciphertext, nonce) pair produced by the symmetric
/// wrapping path and the data and key it was produced from.
pub open spec fn wrapped_pair_ok(ciphertext: Seq<u8>, nonce: Seq<u8>, key: Seq<u8>, data: Seq<u8>) -> bool {
    &&& nonce.len() == NONCE_SIZE
    &&& ciphertext == aead_enc(key, nonce, data)
    &&& aead_dec(key, nonce, ciphertext) == Some(data)
    &&& ciphertext.len() == data.len() + TAG_SIZE
}

/// Encrypt `data` under `key` with a nonce drawn fresh for this call; returns
/// the ciphertext together with that nonce.
pub fn encrypt_with_key(data: &Vec<u8>, key: &Vec<u8>) -> (r: Result<(Vec<u8>, Vec<u8>), CryptoError>)
    ensures
        r is Ok <==> key@.len() == KEY_SIZE && fits_aead(data@.len()),
        r is Err ==> r == Err::<(Vec<u8>, Vec<u8>), CryptoError>(CryptoError::InputValidation),
        r matches Ok(p) ==> wrapped_pair_ok(p.0@, p.1@, key@, data@),
{
    if key.len() != KEY_SIZE {
        return Err(CryptoError::InputValidation);
    }
    let nonce = crate::rng::generate_nonce();
    let ciphertext = match encrypt(data, key, &nonce) {
        Ok(c) => c,
        Err(e) => {
            return Err(e);
        },
    };
    Ok((ciphertext, nonce))
}

/// Decrypt a (ciphertext, nonce) pair produced by `encrypt_with_key`.
pub fn decrypt_with_key(ciphertext: &Vec<u8>, nonce: &Vec<u8>, key: &Vec<u8>) -> (r: Result<Vec<u8>, CryptoError>)
    ensures
        r == Err::<Vec<u8>, CryptoError>(CryptoError::InputValidation) <==> !decryptable_shape(
            key@,
            nonce@,
            ciphertext@,
        ),
        decryptable_shape(key@, nonce@, ciphertext@) ==> ((r is Ok) <==> aead_dec(
            key@,
            nonce@,
            ciphertext@,
        ) is Some),
        r matches Ok(m) ==> aead_dec(key@, nonce@, ciphertext@) == Some(m@)
            && m@.len() + TAG_SIZE == ciphertext@.len(),
        (decryptable_shape(key@, nonce@, ciphertext@) && r is Err) ==> r == Err::<
            Vec<u8>,
            CryptoError,
        >(CryptoError::Authentication),
{
    decrypt(ciphertext, key, nonce)
}

} // verus!
