use vstd::prelude::*;
use crate::cipher::{aead_dec, wrapped_pair_ok, KEY_SIZE, TAG_SIZE};
use crate::engine::{envelope_with, valid_envelope, EncryptionResult};
use crate::folder::folder_unwrap_yields;
use crate::sealed::{box_public_of, sealed_for, sealed_open_of, sealed_unwrap_yields,
    SEAL_OVERHEAD};

verus! {

/// Sealed-box round trip: a wrapped key sealed to a public key is accepted by
/// the sealed-box unwrap under any matching secret key and yields the
/// original DEK.
pub proof fn lemma_sealed_box_round_trip(wrapped: Seq<u8>, pk: Seq<u8>, sk: Seq<u8>, dek: Seq<u8>)
    requires
        dek.len() == KEY_SIZE,
        sealed_for(wrapped, pk, dek),
        pk == box_public_of(sk),
    ensures
        sealed_unwrap_yields(wrapped, pk, sk, dek),
{
    assert(sealed_open_of(wrapped, pk, sk) == Some(dek));
}

/// Share and recover: when a DEK wrapped for holder A is re-wrapped for
/// recipient B (unwrap under A's key pair, then seal to B's public key), B's
/// unwrap accepts the new wrapped key and yields the same DEK.
pub proof fn lemma_share_and_recover(dek: Seq<u8>, wrapped_a: Seq<u8>, a_pk: Seq<u8>, a_sk: Seq<u8>, wrapped_b: Seq<u8>, b_pk: Seq<u8>, b_sk: Seq<u8>)
    requires
        dek.len() == KEY_SIZE,
        sealed_for(wrapped_a, a_pk, dek),
        a_pk == box_public_of(a_sk),
        b_pk == box_public_of(b_sk),
        sealed_open_of(wrapped_a, a_pk, a_sk) matches Some(d) && sealed_for(wrapped_b, b_pk, d),
    ensures
        sealed_unwrap_yields(wrapped_b, b_pk, b_sk, dek),
{
    lemma_sealed_box_round_trip(wrapped_a, a_pk, a_sk, dek);
    lemma_sealed_box_round_trip(wrapped_b, b_pk, b_sk, dek);
}

/// Whole-envelope round trip: an envelope produced by the file engine for a
/// recipient is accepted by the full decryption under any secret key matching
/// the recipient's public key — the wrapped DEK opens to a 32-byte DEK, and
/// the ciphertext decrypts under that DEK and the envelope's nonce back to
/// the original plaintext.
pub proof fn lemma_file_round_trip(res: EncryptionResult, plaintext: Seq<u8>, pk: Seq<u8>, sk: Seq<u8>)
    requires
        valid_envelope(res, plaintext, pk),
        pk == box_public_of(sk),
    ensures
        sealed_open_of(res.wrapped_dek@, pk, sk) matches Some(dek) && dek.len() == KEY_SIZE
            && aead_dec(dek, res.nonce@, res.ciphertext@) == Some(plaintext),
{
    let dek = choose|dek: Seq<u8>| envelope_with(res, plaintext, pk, dek);
    lemma_sealed_box_round_trip(res.wrapped_dek@, pk, sk, dek);
}

/// Folder-key round trip: a (ciphertext, nonce) pair produced by wrapping a
/// DEK under a folder key is accepted by the folder-key unwrap and yields the
/// original DEK.
pub proof fn lemma_folder_key_round_trip(dek: Seq<u8>, folder_key: Seq<u8>, wrapped: Seq<u8>, nonce: Seq<u8>)
    requires
        dek.len() == KEY_SIZE,
        wrapped_pair_ok(wrapped, nonce, folder_key, dek),
    ensures
        folder_unwrap_yields(wrapped, nonce, folder_key, dek),
{
}

/// Cross-mechanism non-interchangeability: the two wrapped-key forms have
/// disjoint shapes. A symmetric-form wrapped DEK (32-byte DEK plus the
/// 16-byte tag) can never be accepted by the sealed-box unwrap, and an
/// asymmetric-form wrapped DEK (32-byte DEK plus the 48-byte seal overhead)
/// can never be accepted by the folder-key unwrap, whatever keys are tried.
pub proof fn lemma_cross_mechanism_rejection(sym_wrapped: Seq<u8>, asym_wrapped: Seq<u8>, pk: Seq<u8>, sk: Seq<u8>, folder_key: Seq<u8>, nonce: Seq<u8>)
    requires
        sym_wrapped.len() == KEY_SIZE + TAG_SIZE,
        asym_wrapped.len() == KEY_SIZE + SEAL_OVERHEAD,
    ensures
        forall|d: Seq<u8>| !#[trigger] sealed_unwrap_yields(sym_wrapped, pk, sk, d),
        forall|d: Seq<u8>| !#[trigger] folder_unwrap_yields(asym_wrapped, nonce, folder_key, d),
{
}

} // verus!
