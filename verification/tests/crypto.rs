use chacha20poly1305::aead::Aead;
use chacha20poly1305::{ChaCha20Poly1305, Key, KeyInit, Nonce};
use download_jobs::crypto::{
    decrypt, encrypt, encrypt_with_nonce, frame, generate_key, key_from_bytes, split_frame,
    CryptoError,
};

const KEY: [u8; 32] = [7u8; 32];

#[test]
fn what_was_sealed_opens_again() {
    let stored = encrypt(&KEY, "{\"soulseek_password\":\"hunter2\"}").expect("sealing works");
    assert_ne!(stored, "{\"soulseek_password\":\"hunter2\"}");
    assert_eq!(decrypt(&KEY, &stored), Ok("{\"soulseek_password\":\"hunter2\"}".to_string()));
}

#[test]
fn the_empty_text_and_other_scripts_open_again() {
    for text in ["", "pässwörd ✓", "line\nbreak"] {
        let stored = encrypt(&KEY, text).expect("sealing works");
        assert_eq!(decrypt(&KEY, &stored), Ok(text.to_string()));
    }
}

#[test]
fn sealing_draws_a_new_nonce_each_time() {
    let a = encrypt(&KEY, "secret").unwrap();
    let b = encrypt(&KEY, "secret").unwrap();
    assert_ne!(a, b);
}

#[test]
fn sealing_with_a_given_nonce_is_a_function() {
    let nonce = [1u8; 12];
    let a = encrypt_with_nonce(&KEY, &nonce, "secret").unwrap();
    let b = encrypt_with_nonce(&KEY, &nonce, "secret").unwrap();
    assert_eq!(a, b);
    assert_eq!(decrypt(&KEY, &a), Ok("secret".to_string()));
    // nonce (12) + text (6) + tag (16) = 34 bytes, 48 characters of base64
    assert_eq!(a.len(), 48);
    assert!(a.starts_with("AQEBAQEBAQEBAQEB"));
    let other = encrypt_with_nonce(&KEY, &[2u8; 12], "secret").unwrap();
    assert_ne!(a, other);
}

#[test]
fn another_key_does_not_open() {
    let stored = encrypt(&KEY, "secret").unwrap();
    assert_eq!(decrypt(&[8u8; 32], &stored), Err(CryptoError::Decryption));
}

#[test]
fn text_that_is_not_base64_is_refused() {
    assert_eq!(decrypt(&KEY, "not base64!"), Err(CryptoError::Encoding));
}

#[test]
fn data_too_short_for_a_nonce_is_refused() {
    assert_eq!(decrypt(&KEY, ""), Err(CryptoError::TooShort));
    // eleven bytes
    assert_eq!(decrypt(&KEY, "AAAAAAAAAAAAAAA="), Err(CryptoError::TooShort));
}

#[test]
fn data_without_an_authentic_ciphertext_is_refused() {
    // twelve bytes: a nonce and nothing else
    assert_eq!(decrypt(&KEY, "AAAAAAAAAAAAAAAA"), Err(CryptoError::Decryption));
}

#[test]
fn a_changed_ciphertext_is_refused() {
    let stored = encrypt_with_nonce(&KEY, &[1u8; 12], "secret").unwrap();
    let mut changed = stored.clone().into_bytes();
    changed[20] = if changed[20] == b'A' { b'B' } else { b'A' };
    let changed = String::from_utf8(changed).unwrap();
    assert_eq!(decrypt(&KEY, &changed), Err(CryptoError::Decryption));
}

#[test]
fn keys_have_thirty_two_bytes() {
    let bytes: Vec<u8> = (0u8..32).collect();
    let key = key_from_bytes(&bytes).expect("thirty-two bytes are a key");
    assert_eq!(key.to_vec(), bytes);
    assert_eq!(key_from_bytes(&vec![0u8; 31]), Err(CryptoError::InvalidKeyLength));
    assert_eq!(key_from_bytes(&vec![0u8; 33]), Err(CryptoError::InvalidKeyLength));
    assert_eq!(key_from_bytes(&vec![]), Err(CryptoError::InvalidKeyLength));
}

#[test]
fn generated_keys_differ() {
    let a = generate_key();
    let b = generate_key();
    assert_ne!(a, b);
    assert_ne!(a, [0u8; 32]);
}

#[test]
#[allow(deprecated)]
fn bytes_that_are_no_text_are_refused() {
    let cipher = ChaCha20Poly1305::new(Key::from_slice(&KEY));
    let nonce = [9u8; 12];
    let ciphertext = cipher.encrypt(Nonce::from_slice(&nonce), &[0xffu8, 0xfe][..]).unwrap();
    let mut framed = nonce.to_vec();
    framed.extend(ciphertext);
    assert_eq!(decrypt(&KEY, &base64::encode(&framed)), Err(CryptoError::NotText));
}

#[test]
#[allow(deprecated)]
fn the_stored_form_is_nonce_then_ciphertext_in_base64() {
    let stored = encrypt(&KEY, "secret").unwrap();
    let framed = base64::decode(&stored).unwrap();
    assert_eq!(framed.len(), 12 + 6 + 16);
    let cipher = ChaCha20Poly1305::new(Key::from_slice(&KEY));
    let plaintext = cipher.decrypt(Nonce::from_slice(&framed[..12]), &framed[12..]).unwrap();
    assert_eq!(plaintext, b"secret".to_vec());
}

#[test]
fn a_frame_is_the_nonce_and_then_the_ciphertext() {
    let nonce = [1u8, 2, 3, 4, 5, 6, 7, 8, 9, 10, 11, 12];
    let framed = frame(&nonce, &vec![20, 21, 22]);
    assert_eq!(framed, vec![1, 2, 3, 4, 5, 6, 7, 8, 9, 10, 11, 12, 20, 21, 22]);
    assert_eq!(frame(&nonce, &vec![]), nonce.to_vec());
    let (first, rest) = split_frame(&framed).expect("fifteen bytes hold a nonce");
    assert_eq!(first, &nonce[..]);
    assert_eq!(rest, &[20u8, 21, 22][..]);
    let (only, nothing) = split_frame(&nonce).expect("twelve bytes hold a nonce");
    assert_eq!(only, &nonce[..]);
    assert!(nothing.is_empty());
    assert_eq!(split_frame(&nonce[..11]), Err(CryptoError::TooShort));
    assert_eq!(split_frame(&[]), Err(CryptoError::TooShort));
}
