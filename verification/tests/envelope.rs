use krypt_core::cipher::{decrypt, decrypt_with_key, encrypt, encrypt_with_key};
use krypt_core::engine::{decrypt_file, decrypt_file_with_dek, encrypt_file, DecryptionParams};
use krypt_core::errors::CryptoError;
use krypt_core::folder::{
    unwrap_dek_with_folder_key, wrap_dek_with_folder_key, UnwrapDekWithFolderKeyParams,
    WrapDekWithFolderKeyParams,
};
use krypt_core::rng::{generate_dek, generate_folder_key, generate_nonce};
use krypt_core::sealed::{
    generate_server_keypair, generate_user_keypair, init_crypto, seal_data, unwrap_dek,
    unwrap_dek_for_user, wrap_dek, wrap_dek_for_recipient,
};
use krypt_core::sharing::{share_file_key, unwrap_shared_dek};

#[test]
fn test_encryption_decryption() {
    assert!(init_crypto());
    let test_content = b"Hello, this is a test file!".to_vec();

    let (public_key, private_key) = generate_server_keypair();

    let result = encrypt_file(&test_content, String::from("test.txt"), &public_key).unwrap();
    assert_eq!(result.original_filename, "test.txt");
    assert_eq!(result.file_size as usize, result.ciphertext.len());
    assert_eq!(result.ciphertext.len(), test_content.len() + 16);

    let params = DecryptionParams {
        ciphertext: result.ciphertext,
        wrapped_dek: result.wrapped_dek,
        nonce: result.nonce,
        server_private_key: private_key,
    };
    let decrypted_content = decrypt_file(params, &public_key).unwrap();
    assert_eq!(test_content, decrypted_content);
}

#[test]
fn test_round_trip() {
    let key = vec![7u8; 32];
    let nonce = vec![9u8; 24];
    let msg = b"attack at dawn".to_vec();
    let ciphertext = encrypt(&msg, &key, &nonce).unwrap();
    assert_ne!(ciphertext, msg);
    assert_eq!(ciphertext.len(), msg.len() + 16);
    assert_eq!(decrypt(&ciphertext, &key, &nonce).unwrap(), msg);

    let empty: Vec<u8> = Vec::new();
    let ciphertext = encrypt(&empty, &key, &nonce).unwrap();
    assert_eq!(ciphertext.len(), 16);
    assert_eq!(decrypt(&ciphertext, &key, &nonce).unwrap(), empty);
}

#[test]
fn test_tamper_detection() {
    let key = vec![1u8; 32];
    let nonce = vec![2u8; 24];
    let msg = b"short secret".to_vec();
    let ciphertext = encrypt(&msg, &key, &nonce).unwrap();
    for i in 0..ciphertext.len() {
        for bit in 0..8 {
            let mut corrupted = ciphertext.clone();
            corrupted[i] ^= 1u8 << bit;
            assert_eq!(
                decrypt(&corrupted, &key, &nonce),
                Err(CryptoError::Authentication)
            );
        }
    }
}

#[test]
fn test_wrong_key_rejection() {
    let key = vec![1u8; 32];
    let other_key = vec![3u8; 32];
    let nonce = vec![2u8; 24];
    let msg = b"under one key only".to_vec();
    let ciphertext = encrypt(&msg, &key, &nonce).unwrap();
    assert_eq!(
        decrypt(&ciphertext, &other_key, &nonce),
        Err(CryptoError::Authentication)
    );
    let other_nonce = vec![4u8; 24];
    assert_eq!(
        decrypt(&ciphertext, &key, &other_nonce),
        Err(CryptoError::Authentication)
    );
}

#[test]
fn test_sealed_box_round_trip() {
    assert!(init_crypto());
    let (pk, sk) = generate_server_keypair();
    let dek = generate_dek();
    let wrapped = wrap_dek(&dek, &pk).unwrap();
    assert_eq!(wrapped.len(), dek.len() + 48);
    assert_ne!(wrapped, dek);
    assert_eq!(unwrap_dek(&wrapped, &pk, &sk).unwrap(), dek);
}

#[test]
fn test_share_and_recover() {
    assert!(init_crypto());
    let owner = generate_user_keypair();
    let recipient = generate_user_keypair();
    let dek = generate_dek();

    let wrapped_for_owner = wrap_dek_for_recipient(&dek, &owner.x25519_public_key).unwrap();
    let wrapped_for_recipient = share_file_key(
        &wrapped_for_owner,
        &owner.x25519_public_key,
        &owner.x25519_private_key,
        &recipient.x25519_public_key,
    )
    .unwrap();
    let recovered = unwrap_shared_dek(
        &wrapped_for_recipient,
        &recipient.x25519_public_key,
        &recipient.x25519_private_key,
    )
    .unwrap();
    assert_eq!(recovered, dek);

    // The recipient's key pair cannot open the owner's wrapped key.
    assert_eq!(
        unwrap_dek_for_user(
            &wrapped_for_owner,
            &recipient.x25519_public_key,
            &recipient.x25519_private_key,
        ),
        Err(CryptoError::Authentication)
    );
}

#[test]
fn test_folder_key_round_trip() {
    let dek = generate_dek();
    let folder_key = generate_folder_key();
    let wrapped = wrap_dek_with_folder_key(WrapDekWithFolderKeyParams {
        dek: dek.clone(),
        folder_key: folder_key.clone(),
    })
    .unwrap();
    assert_eq!(wrapped.wrapped_dek.len(), 48);
    assert_eq!(wrapped.wrapping_nonce.len(), 24);
    let recovered = unwrap_dek_with_folder_key(UnwrapDekWithFolderKeyParams {
        wrapped_dek: wrapped.wrapped_dek,
        wrapping_nonce: wrapped.wrapping_nonce,
        folder_key,
    })
    .unwrap();
    assert_eq!(recovered, dek);
}

#[test]
fn test_length_invariants() {
    assert!(init_crypto());
    assert_eq!(generate_dek().len(), 32);
    assert_eq!(generate_nonce().len(), 24);
    assert_eq!(generate_folder_key().len(), 32);

    let (pk, sk) = generate_server_keypair();
    assert_eq!(pk.len(), 32);
    assert_eq!(sk.len(), 32);
    let identity = generate_user_keypair();
    assert_eq!(identity.x25519_public_key.len(), 32);
    assert_eq!(identity.x25519_private_key.len(), 32);
    assert_eq!(identity.ed25519_public_key.len(), 32);
    assert_eq!(identity.ed25519_private_key.len(), 64);

    // A key whose decoded length is not 32 bytes is rejected before any
    // cryptographic call runs.
    let short_dek = vec![5u8; 31];
    assert_eq!(
        wrap_dek(&short_dek, &pk),
        Err(CryptoError::InputValidation)
    );
    assert!(matches!(
        wrap_dek_with_folder_key(WrapDekWithFolderKeyParams {
            dek: short_dek.clone(),
            folder_key: vec![6u8; 32],
        }),
        Err(CryptoError::InputValidation)
    ));
    assert!(matches!(
        wrap_dek_with_folder_key(WrapDekWithFolderKeyParams {
            dek: vec![5u8; 32],
            folder_key: vec![6u8; 33],
        }),
        Err(CryptoError::InputValidation)
    ));
    let wrapped = wrap_dek(&generate_dek(), &pk).unwrap();
    assert_eq!(
        unwrap_dek(&wrapped, &vec![1u8; 31], &sk),
        Err(CryptoError::InputValidation)
    );
    assert_eq!(
        unwrap_dek(&wrapped, &pk, &vec![1u8; 33]),
        Err(CryptoError::InputValidation)
    );
    assert_eq!(
        decrypt(&vec![0u8; 40], &vec![1u8; 31], &vec![2u8; 24]),
        Err(CryptoError::InputValidation)
    );
    assert_eq!(
        decrypt(&vec![0u8; 40], &vec![1u8; 32], &vec![2u8; 23]),
        Err(CryptoError::InputValidation)
    );
}

#[test]
fn test_end_to_end_scenario() {
    assert!(init_crypto());
    let plaintext = b"Hello, this is a test file!".to_vec();
    let (public_key, private_key) = generate_server_keypair();
    let envelope = encrypt_file(&plaintext, String::from("hello.txt"), &public_key).unwrap();
    let recovered = decrypt_file(
        DecryptionParams {
            ciphertext: envelope.ciphertext,
            wrapped_dek: envelope.wrapped_dek,
            nonce: envelope.nonce,
            server_private_key: private_key,
        },
        &public_key,
    )
    .unwrap();
    assert_eq!(recovered, plaintext);
}

#[test]
fn test_cross_mechanism_rejection() {
    assert!(init_crypto());
    let dek = generate_dek();
    let folder_key = generate_folder_key();
    let (pk, sk) = generate_server_keypair();

    // A symmetric-form wrapped key (48 bytes) never passes the sealed-box unwrap.
    let sym = wrap_dek_with_folder_key(WrapDekWithFolderKeyParams {
        dek: dek.clone(),
        folder_key: folder_key.clone(),
    })
    .unwrap();
    assert_eq!(sym.wrapped_dek.len(), 48);
    assert_eq!(
        unwrap_dek(&sym.wrapped_dek, &pk, &sk),
        Err(CryptoError::Authentication)
    );

    // An asymmetric-form wrapped key (80 bytes) never passes the folder-key unwrap.
    let asym = wrap_dek(&dek, &pk).unwrap();
    assert_eq!(asym.len(), 80);
    assert_eq!(
        unwrap_dek_with_folder_key(UnwrapDekWithFolderKeyParams {
            wrapped_dek: asym,
            wrapping_nonce: sym.wrapping_nonce,
            folder_key,
        }),
        Err(CryptoError::Authentication)
    );
}

#[test]
fn test_seal_data() {
    assert!(init_crypto());
    let (pk, sk) = generate_server_keypair();
    let payload = b"a small token".to_vec();
    let sealed = seal_data(&payload, &pk).unwrap();
    assert_eq!(sealed.len(), payload.len() + 48);
    assert_ne!(&sealed[..payload.len()], &payload[..]);

    // Sealing a 32-byte payload produces exactly the asymmetric wrapped-key
    // form, so the sealed-box unwrap recovers it.
    let secret = generate_dek();
    let sealed_secret = seal_data(&secret, &pk).unwrap();
    assert_eq!(unwrap_dek(&sealed_secret, &pk, &sk).unwrap(), secret);

    assert_eq!(
        seal_data(&payload, &vec![1u8; 31]),
        Err(CryptoError::InputValidation)
    );
}

#[test]
fn test_encrypt_with_key_pair_output() {
    let data = b"wrap me".to_vec();
    let key = vec![11u8; 32];
    let (ciphertext, nonce) = encrypt_with_key(&data, &key).unwrap();
    assert_eq!(nonce.len(), 24);
    assert_eq!(ciphertext.len(), data.len() + 16);
    assert_ne!(&ciphertext[..data.len()], &data[..]);
    assert_eq!(decrypt_with_key(&ciphertext, &nonce, &key).unwrap(), data);
    assert_eq!(
        encrypt_with_key(&data, &vec![11u8; 31]),
        Err(CryptoError::InputValidation)
    );
}

#[test]
fn test_tamper_detection_with_key() {
    let data = b"group secret".to_vec();
    let key = vec![13u8; 32];
    let (ciphertext, nonce) = encrypt_with_key(&data, &key).unwrap();
    // Every single-bit corruption, in the payload or in the embedded tag,
    // is rejected with the undistinguished authentication error.
    for i in 0..ciphertext.len() {
        for bit in 0..8 {
            let mut corrupted = ciphertext.clone();
            corrupted[i] ^= 1u8 << bit;
            assert_eq!(
                decrypt_with_key(&corrupted, &nonce, &key),
                Err(CryptoError::Authentication)
            );
        }
    }
}

#[test]
fn test_wrong_key_rejection_with_key() {
    let data = b"one key only".to_vec();
    let key = vec![21u8; 32];
    let mut other_key = key.clone();
    other_key[31] ^= 1;
    let (ciphertext, nonce) = encrypt_with_key(&data, &key).unwrap();
    assert_eq!(
        decrypt_with_key(&ciphertext, &nonce, &other_key),
        Err(CryptoError::Authentication)
    );
}

#[test]
fn test_decrypt_file_with_dek() {
    assert!(init_crypto());
    let plaintext = b"shared with me".to_vec();
    let dek = generate_dek();
    let nonce = generate_nonce();
    let ciphertext = encrypt(&plaintext, &dek, &nonce).unwrap();

    // The owner wraps the DEK for a recipient, who recovers it and decrypts
    // the content directly, without a second unwrap.
    let recipient = generate_user_keypair();
    let wrapped = wrap_dek_for_recipient(&dek, &recipient.x25519_public_key).unwrap();
    let recovered = unwrap_shared_dek(
        &wrapped,
        &recipient.x25519_public_key,
        &recipient.x25519_private_key,
    )
    .unwrap();
    assert_eq!(
        decrypt_file_with_dek(&ciphertext, &recovered, &nonce).unwrap(),
        plaintext
    );

    assert_eq!(
        decrypt_file_with_dek(&ciphertext, &vec![0u8; 31], &nonce),
        Err(CryptoError::InputValidation)
    );
    let mut corrupted = ciphertext.clone();
    corrupted[0] ^= 1;
    assert_eq!(
        decrypt_file_with_dek(&corrupted, &recovered, &nonce),
        Err(CryptoError::Authentication)
    );
}

#[test]
fn test_unwrap_failures_are_undistinguished() {
    assert!(init_crypto());
    let (pk, sk) = generate_server_keypair();
    let (other_pk, other_sk) = generate_server_keypair();
    let dek = generate_dek();
    let wrapped = wrap_dek(&dek, &pk).unwrap();

    // Wrong key pair and corrupted box give the same error.
    assert_eq!(
        unwrap_dek(&wrapped, &other_pk, &other_sk),
        Err(CryptoError::Authentication)
    );
    let mut corrupted = wrapped.clone();
    corrupted[40] ^= 0x20;
    assert_eq!(
        unwrap_dek(&corrupted, &pk, &sk),
        Err(CryptoError::Authentication)
    );

    // A folder-key unwrap under the wrong key fails the same way.
    let folder_key = generate_folder_key();
    let other_folder_key = generate_folder_key();
    let sym = wrap_dek_with_folder_key(WrapDekWithFolderKeyParams {
        dek,
        folder_key,
    })
    .unwrap();
    assert_eq!(
        unwrap_dek_with_folder_key(UnwrapDekWithFolderKeyParams {
            wrapped_dek: sym.wrapped_dek,
            wrapping_nonce: sym.wrapping_nonce,
            folder_key: other_folder_key,
        }),
        Err(CryptoError::Authentication)
    );
}
