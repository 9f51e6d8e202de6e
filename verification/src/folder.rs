use vstd::prelude::*;
use crate::cipher::{aead_dec, decrypt_with_key, decryptable_shape, encrypt_with_key,
    wrapped_pair_ok, KEY_SIZE, MAX_CIPHERTEXT_LEN, NONCE_SIZE, TAG_SIZE};
use crate::errors::CryptoError;

verus! {

/// Inputs of the symmetric wrapping path: a file's DEK and the group's
/// pre-shared folder key, both raw 32-byte values.
pub struct WrapDekWithFolderKeyParams {
    pub dek: Vec<u8>,
    pub folder_key: Vec<u8>,
}

/// Output of the symmetric wrapping path. Unlike a sealed box, the wrapped
/// form needs its nonce: callers must retain and transmit both values.
pub struct WrapDekWithFolderKeyResult {
    pub wrapped_dek: Vec<u8>,
    pub wrapping_nonce: Vec<u8>,
}

/// Inputs of the symmetric unwrapping path.
pub struct UnwrapDekWithFolderKeyParams {
    pub wrapped_dek: Vec<u8>,
    pub wrapping_nonce: Vec<u8>,
    pub folder_key: Vec<u8>,
}

/// A symmetric-form wrapped key that the folder-key unwrap accepts, and the
/// DEK it yields.
pub open spec fn folder_unwrap_yields(wrapped: Seq<u8>, nonce: Seq<u8>, folder_key: Seq<u8>, dek: Seq<u8>) -> bool {
    &&& aead_dec(folder_key, nonce, wrapped) == Some(dek)
    &&& dek.len() == KEY_SIZE
    &&& wrapped.len() == dek.len() + TAG_SIZE
}

/// Wrap a file's DEK under a shared folder key, drawing a fresh nonce. Any
/// member holding the folder key can unwrap the result without a personal
/// key pair. A DEK or folder key of the wrong length is rejected before any
/// cryptographic work.
pub fn wrap_dek_with_folder_key(params: WrapDekWithFolderKeyParams) -> (r: Result<
    WrapDekWithFolderKeyResult,
    CryptoError,
>)
    ensures
        r is Ok <==> params.dek@.len() == KEY_SIZE && params.folder_key@.len() == KEY_SIZE,
        r is Err ==> r == Err::<WrapDekWithFolderKeyResult, CryptoError>(
            CryptoError::InputValidation,
        ),
        r matches Ok(res) ==> wrapped_pair_ok(
            res.wrapped_dek@,
            res.wrapping_nonce@,
            params.folder_key@,
            params.dek@,
        ),
{
    if params.dek.len() != KEY_SIZE || params.folder_key.len() != KEY_SIZE {
        return Err(CryptoError::InputValidation);
    }
    match encrypt_with_key(&params.dek, &params.folder_key) {
        Ok((wrapped_dek, wrapping_nonce)) => Ok(
            WrapDekWithFolderKeyResult { wrapped_dek, wrapping_nonce },
        ),
        Err(e) => Err(e),
    }
}

/// Unwrap a file's DEK with the shared folder key. A folder key, nonce or
/// wrapped key of an impossible shape is rejected before any cryptographic
/// work; a ciphertext that does not authenticate, or that opens to something
/// that is not a 32-byte DEK, fails with the undistinguished authentication
/// error.
pub fn unwrap_dek_with_folder_key(params: UnwrapDekWithFolderKeyParams) -> (r: Result<
    Vec<u8>,
    CryptoError,
>)
    ensures
        r == Err::<Vec<u8>, CryptoError>(CryptoError::InputValidation) <==> !decryptable_shape(
            params.folder_key@,
            params.wrapping_nonce@,
            params.wrapped_dek@,
        ),
        decryptable_shape(params.folder_key@, params.wrapping_nonce@, params.wrapped_dek@) ==> ((
        r is Ok) <==> (aead_dec(params.folder_key@, params.wrapping_nonce@, params.wrapped_dek@) matches Some(
            m,
        ) && m.len() == KEY_SIZE)),
        r matches Ok(d) ==> folder_unwrap_yields(
            params.wrapped_dek@,
            params.wrapping_nonce@,
            params.folder_key@,
            d@,
        ),
        (decryptable_shape(params.folder_key@, params.wrapping_nonce@, params.wrapped_dek@)
            && r is Err) ==> r == Err::<Vec<u8>, CryptoError>(CryptoError::Authentication),
{
    if params.folder_key.len() != KEY_SIZE || params.wrapping_nonce.len() != NONCE_SIZE
        || params.wrapped_dek.len() as u64 > MAX_CIPHERTEXT_LEN {
        return Err(CryptoError::InputValidation);
    }
    match decrypt_with_key(&params.wrapped_dek, &params.wrapping_nonce, &params.folder_key) {
        Ok(d) => {
            if d.len() != KEY_SIZE {
                return Err(CryptoError::Authentication);
            }
            Ok(d)
        },
        Err(_) => Err(CryptoError::Authentication),
    }
}

} // verus!
