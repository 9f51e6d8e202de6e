use vstd::prelude::*;
use crate::cipher::{aead_dec, aead_enc, decryptable_shape, fits_aead, KEY_SIZE,
    MAX_CIPHERTEXT_LEN, MAX_MESSAGE_LEN, NONCE_SIZE, TAG_SIZE};
use crate::errors::CryptoError;
use crate::rng::{generate_dek, generate_nonce};
use crate::sealed::{sealed_for, sealed_open_of, unwrap_dek, wrap_dek, PUBLIC_KEY_SIZE,
    SECRET_KEY_SIZE};

verus! {

/// A complete encrypted-file envelope: everything a later decryption needs.
/// The ciphertext carries its authentication tag; the wrapped DEK is a sealed
/// box addressed to the recipient; the nonce is public and travels alongside.
/// The original file name is a caller-supplied pass-through and is not
/// protected by the authentication tag.
pub struct EncryptionResult {
    pub ciphertext: Vec<u8>,
    pub wrapped_dek: Vec<u8>,
    pub nonce: Vec<u8>,
    pub file_size: u64,
    pub original_filename: String,
}

/// Inputs of a full envelope decryption: the ciphertext, its metadata, and
/// the holder's private key (the matching public key is passed separately).
pub struct DecryptionParams {
    pub ciphertext: Vec<u8>,
    pub wrapped_dek: Vec<u8>,
    pub nonce: Vec<u8>,
    pub server_private_key: Vec<u8>,
}

/// The relation between an envelope, the plaintext it was built from, the
/// recipient's public key, and the DEK generated for it: the ciphertext is
/// the AEAD encryption of the plaintext under that DEK and the envelope's
/// nonce, it decrypts back to the plaintext, and the wrapped DEK is a sealed
/// box holding the DEK addressed to the recipient.
pub open spec fn envelope_with(res: EncryptionResult, plaintext: Seq<u8>, recipient_pk: Seq<u8>, dek: Seq<u8>) -> bool {
    &&& dek.len() == KEY_SIZE
    &&& res.nonce@.len() == NONCE_SIZE
    &&& res.ciphertext@ == aead_enc(dek, res.nonce@, plaintext)
    &&& aead_dec(dek, res.nonce@, res.ciphertext@) == Some(plaintext)
    &&& res.ciphertext@.len() == plaintext.len() + TAG_SIZE
    &&& sealed_for(res.wrapped_dek@, recipient_pk, dek)
    &&& res.file_size == res.ciphertext@.len()
}

/// An envelope as `encrypt_file` hands it back: built around some DEK, which
/// the engine generated inside the call and never exposes.
pub open spec fn valid_envelope(res: EncryptionResult, plaintext: Seq<u8>, recipient_pk: Seq<u8>) -> bool {
    exists|dek: Seq<u8>| #[trigger] envelope_with(res, plaintext, recipient_pk, dek)
}

/// Encrypt a whole file buffer for the holder of `server_public_key`:
/// generate a fresh DEK and nonce, AEAD-encrypt the content under them, and
/// seal the DEK to the recipient. The DEK lives only inside this call; the
/// returned envelope is everything a later decryption needs.
pub fn encrypt_file(plaintext: &Vec<u8>, original_filename: String, server_public_key: &Vec<u8>) -> (r:
    Result<EncryptionResult, CryptoError>)
    ensures
        r is Ok <==> server_public_key@.len() == PUBLIC_KEY_SIZE && fits_aead(plaintext@.len()),
        r is Err ==> r == Err::<EncryptionResult, CryptoError>(CryptoError::InputValidation),
        r matches Ok(res) ==> valid_envelope(res, plaintext@, server_public_key@),
        r matches Ok(res) ==> res.original_filename@ == original_filename@,
{
    if server_public_key.len() != PUBLIC_KEY_SIZE {
        return Err(CryptoError::InputValidation);
    }
    if plaintext.len() as u64 > MAX_MESSAGE_LEN || plaintext.len() > usize::MAX - TAG_SIZE {
        return Err(CryptoError::InputValidation);
    }
    let dek = generate_dek();
    let nonce = generate_nonce();
    let ciphertext = match crate::cipher::encrypt(plaintext, &dek, &nonce) {
        Ok(c) => c,
        Err(e) => {
            return Err(e);
        },
    };
    let wrapped_dek = match wrap_dek(&dek, server_public_key) {
        Ok(w) => w,
        Err(e) => {
            return Err(e);
        },
    };
    let file_size = ciphertext.len() as u64;
    let res = EncryptionResult { ciphertext, wrapped_dek, nonce, file_size, original_filename };
    proof {
        assert(envelope_with(res, plaintext@, server_public_key@, dek@));
        assert(valid_envelope(res, plaintext@, server_public_key@));
    }
    Ok(res)
}

/// Inputs of a full decryption that have the right shape: correctly sized
/// key material and nonce, and a ciphertext no longer than any encryption
/// could produce.
pub open spec fn decryption_inputs_ok(params: DecryptionParams, pk: Seq<u8>) -> bool {
    &&& pk.len() == PUBLIC_KEY_SIZE
    &&& params.server_private_key@.len() == SECRET_KEY_SIZE
    &&& params.nonce@.len() == NONCE_SIZE
    &&& params.ciphertext@.len() <= MAX_CIPHERTEXT_LEN
}

/// Decrypt a full envelope: unwrap the DEK with the holder's key pair, then
/// AEAD-decrypt the ciphertext under it. Key material, nonce or ciphertext
/// of an impossible shape is rejected before any cryptographic work; every
/// cryptographic failure is the undistinguished authentication error.
pub fn decrypt_file(params: DecryptionParams, server_public_key: &Vec<u8>) -> (r: Result<
    Vec<u8>,
    CryptoError,
>)
    ensures
        r == Err::<Vec<u8>, CryptoError>(CryptoError::InputValidation) <==> !decryption_inputs_ok(
            params,
            server_public_key@,
        ),
        decryption_inputs_ok(params, server_public_key@) ==> ((r is Ok) <==> (sealed_open_of(
            params.wrapped_dek@,
            server_public_key@,
            params.server_private_key@,
        ) matches Some(dek) && dek.len() == KEY_SIZE && aead_dec(
            dek,
            params.nonce@,
            params.ciphertext@,
        ) is Some)),
        r matches Ok(m) ==> (sealed_open_of(
            params.wrapped_dek@,
            server_public_key@,
            params.server_private_key@,
        ) matches Some(dek) && aead_dec(dek, params.nonce@, params.ciphertext@) == Some(m@)),
        (decryption_inputs_ok(params, server_public_key@) && r is Err) ==> r == Err::<
            Vec<u8>,
            CryptoError,
        >(CryptoError::Authentication),
{
    if server_public_key.len() != PUBLIC_KEY_SIZE || params.server_private_key.len()
        != SECRET_KEY_SIZE || params.nonce.len() != NONCE_SIZE || params.ciphertext.len() as u64
        > MAX_CIPHERTEXT_LEN {
        return Err(CryptoError::InputValidation);
    }
    let dek = match unwrap_dek(&params.wrapped_dek, server_public_key, &params.server_private_key) {
        Ok(d) => d,
        Err(_) => {
            return Err(CryptoError::Authentication);
        },
    };
    match crate::cipher::decrypt(&params.ciphertext, &dek, &params.nonce) {
        Ok(m) => Ok(m),
        Err(_) => Err(CryptoError::Authentication),
    }
}

/// Decrypt a file buffer with an already-recovered DEK, skipping the unwrap
/// step: the key-recovery and content-decryption halves of `decrypt_file`
/// stay separately usable, as sharing hands callers a bare DEK.
pub fn decrypt_file_with_dek(ciphertext: &Vec<u8>, dek: &Vec<u8>, nonce: &Vec<u8>) -> (r: Result<
    Vec<u8>,
    CryptoError,
>)
    ensures
        r == Err::<Vec<u8>, CryptoError>(CryptoError::InputValidation) <==> !decryptable_shape(
            dek@,
            nonce@,
            ciphertext@,
        ),
        decryptable_shape(dek@, nonce@, ciphertext@) ==> ((r is Ok) <==> aead_dec(
            dek@,
            nonce@,
            ciphertext@,
        ) is Some),
        r matches Ok(m) ==> aead_dec(dek@, nonce@, ciphertext@) == Some(m@)
            && m@.len() + TAG_SIZE == ciphertext@.len(),
        (decryptable_shape(dek@, nonce@, ciphertext@) && r is Err) ==> r == Err::<
            Vec<u8>,
            CryptoError,
        >(CryptoError::Authentication),
{
    if dek.len() != KEY_SIZE {
        return Err(CryptoError::InputValidation);
    }
    crate::cipher::decrypt(ciphertext, dek, nonce)
}

} // verus!
