use vstd::prelude::*;
use crate::cipher::KEY_SIZE;
use crate::errors::CryptoError;
use crate::sealed::{sealed_for, sealed_open_of, sealed_unwrap_yields, unwrap_dek_for_user,
    wrap_dek_for_recipient, PUBLIC_KEY_SIZE, SECRET_KEY_SIZE};

verus! {

/// Re-wrap a DEK from the current holder to another recipient: unwrap with
/// the holder's key pair, then seal to the recipient's public key, as one
/// logical operation. The intermediate plaintext DEK exists only inside this
/// call and is never part of the result on failure.
pub fn share_file_key(wrapped_dek: &Vec<u8>, user_public_key: &Vec<u8>, user_private_key: &Vec<u8>, recipient_public_key: &Vec<u8>) -> (r:
    Result<Vec<u8>, CryptoError>)
    ensures
        r == Err::<Vec<u8>, CryptoError>(CryptoError::InputValidation) <==> (user_public_key@.len()
            != PUBLIC_KEY_SIZE || user_private_key@.len() != SECRET_KEY_SIZE
            || recipient_public_key@.len() != PUBLIC_KEY_SIZE),
        (user_public_key@.len() == PUBLIC_KEY_SIZE && user_private_key@.len() == SECRET_KEY_SIZE
            && recipient_public_key@.len() == PUBLIC_KEY_SIZE) ==> ((r is Ok) <==> (sealed_open_of(
            wrapped_dek@,
            user_public_key@,
            user_private_key@,
        ) matches Some(d) && d.len() == KEY_SIZE)),
        r matches Ok(w) ==> (sealed_open_of(wrapped_dek@, user_public_key@, user_private_key@) matches Some(
            d,
        ) && sealed_for(w@, recipient_public_key@, d)),
        (user_public_key@.len() == PUBLIC_KEY_SIZE && user_private_key@.len() == SECRET_KEY_SIZE
            && recipient_public_key@.len() == PUBLIC_KEY_SIZE && r is Err) ==> r == Err::<
            Vec<u8>,
            CryptoError,
        >(CryptoError::Authentication),
{
    if user_public_key.len() != PUBLIC_KEY_SIZE || user_private_key.len() != SECRET_KEY_SIZE
        || recipient_public_key.len() != PUBLIC_KEY_SIZE {
        return Err(CryptoError::InputValidation);
    }
    let dek = match unwrap_dek_for_user(wrapped_dek, user_public_key, user_private_key) {
        Ok(d) => d,
        Err(_) => {
            return Err(CryptoError::Authentication);
        },
    };
    match wrap_dek_for_recipient(&dek, recipient_public_key) {
        Ok(w) => Ok(w),
        Err(e) => Err(e),
    }
}

/// Recover the DEK from a wrapped key sealed to this user, for reuse against
/// several ciphertexts without repeated unwrap calls.
pub fn unwrap_shared_dek(wrapped_dek: &Vec<u8>, user_public_key: &Vec<u8>, user_private_key: &Vec<u8>) -> (r:
    Result<Vec<u8>, CryptoError>)
    ensures
        r == Err::<Vec<u8>, CryptoError>(CryptoError::InputValidation) <==> (user_public_key@.len()
            != PUBLIC_KEY_SIZE || user_private_key@.len() != SECRET_KEY_SIZE),
        (user_public_key@.len() == PUBLIC_KEY_SIZE && user_private_key@.len() == SECRET_KEY_SIZE)
            ==> ((r is Ok) <==> (sealed_open_of(wrapped_dek@, user_public_key@, user_private_key@) matches Some(
            m,
        ) && m.len() == KEY_SIZE)),
        r matches Ok(d) ==> sealed_unwrap_yields(wrapped_dek@, user_public_key@, user_private_key@, d@),
        (user_public_key@.len() == PUBLIC_KEY_SIZE && user_private_key@.len() == SECRET_KEY_SIZE
            && r is Err) ==> r == Err::<Vec<u8>, CryptoError>(CryptoError::Authentication),
{
    unwrap_dek_for_user(wrapped_dek, user_public_key, user_private_key)
}

} // verus!
