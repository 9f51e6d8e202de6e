use vstd::prelude::*;
use crate::cipher::KEY_SIZE;
use crate::errors::CryptoError;

verus! {

/// Byte length of an X25519 public key.
pub const PUBLIC_KEY_SIZE: usize = 32;

/// Byte length of an X25519 secret key.
pub const SECRET_KEY_SIZE: usize = 32;

/// Byte length of an Ed25519 public key.
pub const SIGN_PUBLIC_KEY_SIZE: usize = 32;

/// Byte length of an Ed25519 secret key.
pub const SIGN_SECRET_KEY_SIZE: usize = 64;

/// Bytes a sealed box adds in front of its payload: the ephemeral public key
/// (32 bytes) followed by the authentication tag (16 bytes).
pub const SEAL_OVERHEAD: usize = 48;

/// The public key that the sealed-box key generation derives from a secret
/// key; the derivation is deterministic, a pure function of the secret key.
pub uninterp spec fn box_public_of(sk: Seq<u8>) -> Seq<u8>;

/// What opening a sealed box yields for a ciphertext and a key pair: the
/// sealed payload when the ciphertext was sealed to the matching public key,
/// nothing otherwise; opening is a pure function of its three inputs.
pub uninterp spec fn sealed_open_of(sealed: Seq<u8>, pk: Seq<u8>, sk: Seq<u8>) -> Option<Seq<u8>>;

/// A sealed box holding `payload`, addressed to `pk`: it opens to `payload`
/// under every secret key whose derived public key is `pk`.
pub open spec fn sealed_for(sealed: Seq<u8>, pk: Seq<u8>, payload: Seq<u8>) -> bool {
    &&& sealed.len() == payload.len() + SEAL_OVERHEAD
    &&& forall|sk: Seq<u8>| box_public_of(sk) == pk ==> #[trigger] sealed_open_of(sealed, pk, sk)
        == Some(payload)
}

/// A wrapped key that the sealed-box unwrap accepts, and the DEK it yields.
pub open spec fn sealed_unwrap_yields(wrapped: Seq<u8>, pk: Seq<u8>, sk: Seq<u8>, dek: Seq<u8>) -> bool {
    &&& sealed_open_of(wrapped, pk, sk) == Some(dek)
    &&& dek.len() == KEY_SIZE
    &&& wrapped.len() == dek.len() + SEAL_OVERHEAD
}

/// Relies on sodiumoxide::init: sets libsodium up; safe to call more than
/// once; without it the generation functions are not thread-safe.
#[verifier::external_body]
fn sodium_init() -> (r: bool) {
    sodiumoxide::init().is_ok()
}

/// Prepare the underlying cryptographic library. Call once at process start,
/// before any other operation; a result of `false` is fatal and must not be
/// answered by falling back to weaker primitives.
pub fn init_crypto() -> (r: bool) {
    sodium_init()
}

/// Relies on sodiumoxide::crypto::sealedbox::seal: seals a payload to a public
/// key with a fresh ephemeral key pair, adding 48 bytes; the result opens to
/// the payload under every secret key that derives the recipient public key.
#[verifier::external_body]
fn sealedbox_seal(payload: &Vec<u8>, pk: &Vec<u8>) -> (r: Vec<u8>)
    requires
        pk@.len() == PUBLIC_KEY_SIZE,
        payload@.len() + SEAL_OVERHEAD <= usize::MAX,
    ensures
        r@.len() == payload@.len() + SEAL_OVERHEAD,
        forall|sk: Seq<u8>| box_public_of(sk) == pk@ ==> #[trigger] sealed_open_of(r@, pk@, sk)
            == Some(payload@),
{
    let key = sodiumoxide::crypto::box_::PublicKey::from_slice(pk.as_slice())
        .expect("public key length checked by caller");
    sodiumoxide::crypto::sealedbox::seal(payload.as_slice(), &key)
}

/// Relies on sodiumoxide::crypto::sealedbox::open: deterministic; yields a
/// payload 48 bytes shorter than the ciphertext when the key pair matches the
/// box, and an undistinguished error otherwise.
#[verifier::external_body]
fn sealedbox_open(sealed: &Vec<u8>, pk: &Vec<u8>, sk: &Vec<u8>) -> (r: Option<Vec<u8>>)
    requires
        pk@.len() == PUBLIC_KEY_SIZE,
        sk@.len() == SECRET_KEY_SIZE,
    ensures
        r matches Some(m) ==> sealed_open_of(sealed@, pk@, sk@) == Some(m@)
            && m@.len() + SEAL_OVERHEAD == sealed@.len(),
        r is None ==> sealed_open_of(sealed@, pk@, sk@) is None,
{
    let p = sodiumoxide::crypto::box_::PublicKey::from_slice(pk.as_slice())
        .expect("public key length checked by caller");
    let s = sodiumoxide::crypto::box_::SecretKey::from_slice(sk.as_slice())
        .expect("secret key length checked by caller");
    sodiumoxide::crypto::sealedbox::open(sealed.as_slice(), &p, &s).ok()
}

/// Relies on sodiumoxide::crypto::box_::gen_keypair: draws a random 32-byte
/// secret key and derives the 32-byte public key from it.
#[verifier::external_body]
fn box_gen_keypair() -> (r: (Vec<u8>, Vec<u8>))
    ensures
        r.0@.len() == PUBLIC_KEY_SIZE,
        r.1@.len() == SECRET_KEY_SIZE,
        r.0@ == box_public_of(r.1@),
{
    let (pk, sk) = sodiumoxide::crypto::box_::gen_keypair();
    (pk.as_ref().to_vec(), sk.as_ref().to_vec())
}

/// Relies on sodiumoxide::crypto::sign::gen_keypair: produces an Ed25519 key
/// pair with a 32-byte public key and a 64-byte secret key.
#[verifier::external_body]
fn sign_gen_keypair() -> (r: (Vec<u8>, Vec<u8>))
    ensures
        r.0@.len() == SIGN_PUBLIC_KEY_SIZE,
        r.1@.len() == SIGN_SECRET_KEY_SIZE,
{
    let (pk, sk) = sodiumoxide::crypto::sign::gen_keypair();
    (pk.as_ref().to_vec(), sk.as_ref().to_vec())
}

/// A user's two key pairs: an X25519 pair for sealed-box wrapping and an
/// Ed25519 pair reserved for identity use. No operation of this engine
/// consumes the signing pair. The private halves must never leave the
/// holder's trust boundary; the type deliberately carries no formatting
/// implementation that could write them to a log.
#[derive(Clone)]
pub struct UserKeypair {
    pub x25519_public_key: Vec<u8>,
    pub x25519_private_key: Vec<u8>,
    pub ed25519_public_key: Vec<u8>,
    pub ed25519_private_key: Vec<u8>,
}

/// Well-formedness of a generated user key pair: every half has its curve's
/// length and the X25519 public half is the one derived from the private half.
pub open spec fn user_keypair_wf(k: UserKeypair) -> bool {
    &&& k.x25519_public_key@.len() == PUBLIC_KEY_SIZE
    &&& k.x25519_private_key@.len() == SECRET_KEY_SIZE
    &&& k.x25519_public_key@ == box_public_of(k.x25519_private_key@)
    &&& k.ed25519_public_key@.len() == SIGN_PUBLIC_KEY_SIZE
    &&& k.ed25519_private_key@.len() == SIGN_SECRET_KEY_SIZE
}

/// Generate the X25519 key pair of a recipient, public key first.
pub fn generate_server_keypair() -> (r: (Vec<u8>, Vec<u8>))
    ensures
        r.0@.len() == PUBLIC_KEY_SIZE,
        r.1@.len() == SECRET_KEY_SIZE,
        r.0@ == box_public_of(r.1@),
{
    box_gen_keypair()
}

/// Generate a user identity: an X25519 pair for wrapping and an Ed25519 pair
/// reserved for signing.
pub fn generate_user_keypair() -> (r: UserKeypair)
    ensures
        user_keypair_wf(r),
{
    let (x_pk, x_sk) = box_gen_keypair();
    let (ed_pk, ed_sk) = sign_gen_keypair();
    UserKeypair {
        x25519_public_key: x_pk,
        x25519_private_key: x_sk,
        ed25519_public_key: ed_pk,
        ed25519_private_key: ed_sk,
    }
}

/// Wrap a 32-byte DEK for the holder of `server_public_key`: the result is a
/// sealed box that only a matching secret key opens.
pub fn wrap_dek(dek: &Vec<u8>, server_public_key: &Vec<u8>) -> (r: Result<Vec<u8>, CryptoError>)
    ensures
        r is Ok <==> dek@.len() == KEY_SIZE && server_public_key@.len() == PUBLIC_KEY_SIZE,
        r is Err ==> r == Err::<Vec<u8>, CryptoError>(CryptoError::InputValidation),
        r matches Ok(w) ==> sealed_for(w@, server_public_key@, dek@),
{
    if dek.len() != KEY_SIZE || server_public_key.len() != PUBLIC_KEY_SIZE {
        return Err(CryptoError::InputValidation);
    }
    Ok(sealedbox_seal(dek, server_public_key))
}

/// Unwrap a sealed-box-wrapped DEK with the holder's key pair. Key material of
/// the wrong length is rejected before any cryptographic work; a box that does
/// not open, or opens to something that is not a 32-byte DEK, fails with the
/// undistinguished authentication error.
pub fn unwrap_dek(wrapped_dek: &Vec<u8>, server_public_key: &Vec<u8>, server_private_key: &Vec<u8>) -> (r:
    Result<Vec<u8>, CryptoError>)
    ensures
        r == Err::<Vec<u8>, CryptoError>(CryptoError::InputValidation) <==> (server_public_key@.len()
            != PUBLIC_KEY_SIZE || server_private_key@.len() != SECRET_KEY_SIZE),
        (server_public_key@.len() == PUBLIC_KEY_SIZE && server_private_key@.len()
            == SECRET_KEY_SIZE) ==> ((r is Ok) <==> (sealed_open_of(
            wrapped_dek@,
            server_public_key@,
            server_private_key@,
        ) matches Some(m) && m.len() == KEY_SIZE)),
        r matches Ok(d) ==> sealed_unwrap_yields(wrapped_dek@, server_public_key@, server_private_key@, d@),
        (server_public_key@.len() == PUBLIC_KEY_SIZE && server_private_key@.len()
            == SECRET_KEY_SIZE && r is Err) ==> r == Err::<Vec<u8>, CryptoError>(
            CryptoError::Authentication,
        ),
{
    if server_public_key.len() != PUBLIC_KEY_SIZE || server_private_key.len() != SECRET_KEY_SIZE {
        return Err(CryptoError::InputValidation);
    }
    match sealedbox_open(wrapped_dek, server_public_key, server_private_key) {
        Some(d) => {
            if d.len() != KEY_SIZE {
                return Err(CryptoError::Authentication);
            }
            Ok(d)
        },
        None => Err(CryptoError::Authentication),
    }
}

/// Wrap a DEK for another recipient's X25519 public key, as used when sharing.
pub fn wrap_dek_for_recipient(dek: &Vec<u8>, recipient_public_key: &Vec<u8>) -> (r: Result<
    Vec<u8>,
    CryptoError,
>)
    ensures
        r is Ok <==> dek@.len() == KEY_SIZE && recipient_public_key@.len() == PUBLIC_KEY_SIZE,
        r is Err ==> r == Err::<Vec<u8>, CryptoError>(CryptoError::InputValidation),
        r matches Ok(w) ==> sealed_for(w@, recipient_public_key@, dek@),
{
    wrap_dek(dek, recipient_public_key)
}

/// Unwrap a DEK that was sealed to this user's X25519 public key.
pub fn unwrap_dek_for_user(wrapped_dek: &Vec<u8>, user_public_key: &Vec<u8>, user_private_key: &Vec<u8>) -> (r:
    Result<Vec<u8>, CryptoError>)
    ensures
        r == Err::<Vec<u8>, CryptoError>(CryptoError::InputValidation) <==> (user_public_key@.len()
            != PUBLIC_KEY_SIZE || user_private_key@.len() != SECRET_KEY_SIZE),
        (user_public_key@.len() == PUBLIC_KEY_SIZE && user_private_key@.len() == SECRET_KEY_SIZE)
            ==> ((r is Ok) <==> (sealed_open_of(wrapped_dek@, user_public_key@, user_private_key@) matches Some(
            m,
        ) && m.len() == KEY_SIZE)),
        r matches Ok(d) ==> sealed_unwrap_yields(wrapped_dek@, user_public_key@, user_private_key@, d@),
        (user_public_key@.len() == PUBLIC_KEY_SIZE && user_private_key@.len() == SECRET_KEY_SIZE
            && r is Err) ==> r == Err::<Vec<u8>, CryptoError>(CryptoError::Authentication),
{
    unwrap_dek(wrapped_dek, user_public_key, user_private_key)
}

/// Seal an arbitrary small payload to a recipient's public key, for
/// transporting non-file secrets.
pub fn seal_data(data: &Vec<u8>, recipient_public_key: &Vec<u8>) -> (r: Result<Vec<u8>, CryptoError>)
    ensures
        r is Ok <==> recipient_public_key@.len() == PUBLIC_KEY_SIZE && data@.len() + SEAL_OVERHEAD
            <= usize::MAX,
        r is Err ==> r == Err::<Vec<u8>, CryptoError>(CryptoError::InputValidation),
        r matches Ok(s) ==> sealed_for(s@, recipient_public_key@, data@),
{
    if recipient_public_key.len() != PUBLIC_KEY_SIZE || data.len() > usize::MAX - SEAL_OVERHEAD {
        return Err(CryptoError::InputValidation);
    }
    Ok(sealedbox_seal(data, recipient_public_key))
}

} // verus!
