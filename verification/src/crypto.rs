//! Sealing of stored secrets.
//!
//! A secret is encrypted under a key of 32 bytes with a nonce of 12 bytes
//! that is drawn anew each time. What is stored is the nonce followed by the
//! ciphertext, written in base64. Opening takes the same steps back.
//!
//! The cipher and the encoding are those of the `chacha20poly1305` and
//! `base64` crates. Their results are not specified here beyond their names
//! and the fact that each undoes its counterpart.

use vstd::prelude::*;
use vstd::utf8::{decode_utf8, encode_utf8, valid_utf8};
use chacha20poly1305::aead::Aead;
use chacha20poly1305::KeyInit;
use rand::RngCore;

verus! {

/// The length of a key in bytes.
pub const KEY_LENGTH: usize = 32;

/// The length of a nonce in bytes.
pub const NONCE_LENGTH: usize = 12;

/// The length of the tag that the cipher appends, in bytes.
pub const TAG_LENGTH: usize = 16;

/// Why sealing or opening failed.
#[derive(Debug, Clone, Copy, PartialEq, Eq, Structural)]
pub enum CryptoError {
    /// The stored key does not have 32 bytes.
    InvalidKeyLength,
    /// The message is too long to be sealed.
    Encryption,
    /// The stored text is not base64.
    Encoding,
    /// The stored data is too short to hold a nonce.
    TooShort,
    /// The ciphertext does not open under the key.
    Decryption,
    /// What came out of the ciphertext is not text.
    NotText,
}

/// The error of the cipher. Nothing of its inside is known here.
#[verifier::external_type_specification]
#[verifier::external_body]
pub struct ExAeadError(chacha20poly1305::aead::Error);

/// The error with which the `base64` crate refuses a text. Nothing of its
/// inside is known here.
#[verifier::external_type_specification]
#[verifier::external_body]
pub struct ExDecodeError(base64::DecodeError);

/// The ciphertext that `ChaCha20Poly1305::encrypt` makes of a plaintext
/// under a key and a nonce, where it makes one.
pub uninterp spec fn sealed(key: Seq<u8>, nonce: Seq<u8>, plaintext: Seq<u8>) -> Option<Seq<u8>>;

/// The plaintext that `ChaCha20Poly1305::decrypt` finds in a ciphertext
/// under a key and a nonce, where the ciphertext is authentic.
pub uninterp spec fn opened(key: Seq<u8>, nonce: Seq<u8>, ciphertext: Seq<u8>) -> Option<Seq<u8>>;

/// The text that `base64::encode` writes for some bytes.
pub uninterp spec fn base64_text(bytes: Seq<u8>) -> Seq<char>;

/// The bytes that `base64::decode` reads from a text, where the text is
/// base64.
pub uninterp spec fn base64_bytes(text: Seq<char>) -> Option<Seq<u8>>;

/// Whether some bytes are few enough for `base64::encode` to size its
/// output.
pub open spec fn encodable(length: nat) -> bool {
    length / 3 < usize::MAX / 4
}

/// Bytes from the operating system's random number generator.
///
/// Calls `fill_bytes` of `rand::rngs::OsRng` on a fresh array. Which bytes
/// come is left open. The call panics where the operating system gives
/// none.
#[verifier::external_body]
fn random_bytes<const N: usize>() -> [u8; N] {
    let mut bytes = [0u8; N];
    rand::rngs::OsRng.fill_bytes(&mut bytes);
    bytes
}

/// Encrypts a plaintext under a key and a nonce.
///
/// Calls `ChaCha20Poly1305::encrypt` with a cipher made from the key. The
/// result is named by [`sealed`]; what the cipher has sealed it opens again
/// under the same key and nonce.
#[verifier::external_body]
fn seal(key: &[u8; 32], nonce: &[u8], plaintext: &[u8]) -> (r: Result<
    Vec<u8>,
    chacha20poly1305::aead::Error,
>)
    requires
        nonce@.len() == NONCE_LENGTH,
        plaintext@.len() + TAG_LENGTH <= usize::MAX,
    ensures
        match r {
            Ok(ciphertext) => sealed(key@, nonce@, plaintext@) == Some(ciphertext@) && opened(
                key@,
                nonce@,
                ciphertext@,
            ) == Some(plaintext@),
            Err(_) => sealed(key@, nonce@, plaintext@) is None,
        },
{
    chacha20poly1305::ChaCha20Poly1305::new(chacha20poly1305::Key::from_slice(key)).encrypt(
        chacha20poly1305::Nonce::from_slice(nonce),
        plaintext,
    )
}

/// Decrypts a ciphertext under a key and a nonce.
///
/// Calls `ChaCha20Poly1305::decrypt` with a cipher made from the key. The
/// result is named by [`opened`].
#[verifier::external_body]
fn open(key: &[u8; 32], nonce: &[u8], ciphertext: &[u8]) -> (r: Result<
    Vec<u8>,
    chacha20poly1305::aead::Error,
>)
    requires
        nonce@.len() == NONCE_LENGTH,
    ensures
        match r {
            Ok(plaintext) => opened(key@, nonce@, ciphertext@) == Some(plaintext@),
            Err(_) => opened(key@, nonce@, ciphertext@) is None,
        },
{
    chacha20poly1305::ChaCha20Poly1305::new(chacha20poly1305::Key::from_slice(key)).decrypt(
        chacha20poly1305::Nonce::from_slice(nonce),
        ciphertext,
    )
}

/// Writes bytes in base64.
///
/// Calls `base64::encode`. The result is named by [`base64_text`]; what was
/// encoded decodes to the same bytes.
#[verifier::external_body]
#[allow(deprecated)]
fn encode_base64(bytes: &[u8]) -> (r: String)
    requires
        encodable(bytes@.len()),
    ensures
        r@ == base64_text(bytes@),
        base64_bytes(r@) == Some(bytes@),
{
    base64::encode(bytes)
}

/// Reads bytes from base64.
///
/// Calls `base64::decode`. The result is named by [`base64_bytes`].
#[verifier::external_body]
#[allow(deprecated)]
fn decode_base64(text: &str) -> (r: Result<Vec<u8>, base64::DecodeError>)
    ensures
        match r {
            Ok(bytes) => base64_bytes(text@) == Some(bytes@),
            Err(_) => base64_bytes(text@) is None,
        },
{
    base64::decode(text)
}

/// Reads bytes as text.
///
/// Calls `String::from_utf8` of the standard library, which accepts the
/// bytes exactly if they are UTF-8 and then holds the text they encode.
#[verifier::external_body]
fn text_from_bytes(bytes: Vec<u8>) -> (r: Option<String>)
    ensures
        match r {
            Some(text) => valid_utf8(bytes@) && text@ == decode_utf8(bytes@),
            None => !valid_utf8(bytes@),
        },
{
    String::from_utf8(bytes).ok()
}

/// What sealing a text under a key and a given nonce yields.
pub open spec fn sealed_text(key: Seq<u8>, nonce: Seq<u8>, data: Seq<char>) -> Result<
    Seq<char>,
    CryptoError,
> {
    if encode_utf8(data).len() + TAG_LENGTH > usize::MAX {
        Err(CryptoError::Encryption)
    } else {
        match sealed(key, nonce, encode_utf8(data)) {
            Some(ciphertext) => if encodable((nonce + ciphertext).len()) {
                Ok(base64_text(nonce + ciphertext))
            } else {
                Err(CryptoError::Encryption)
            },
            None => Err(CryptoError::Encryption),
        }
    }
}

/// What opening a stored text under a key yields.
pub open spec fn opened_text(key: Seq<u8>, stored: Seq<char>) -> Result<Seq<char>, CryptoError> {
    match base64_bytes(stored) {
        None => Err(CryptoError::Encoding),
        Some(framed) => if framed.len() < NONCE_LENGTH {
            Err(CryptoError::TooShort)
        } else {
            match opened(
                key,
                framed.subrange(0, NONCE_LENGTH as int),
                framed.subrange(NONCE_LENGTH as int, framed.len() as int),
            ) {
                None => Err(CryptoError::Decryption),
                Some(plaintext) => if valid_utf8(plaintext) {
                    Ok(decode_utf8(plaintext))
                } else {
                    Err(CryptoError::NotText)
                },
            }
        },
    }
}

/// A result of text, as its mathematical value.
pub open spec fn text_view(r: Result<String, CryptoError>) -> Result<Seq<char>, CryptoError> {
    match r {
        Ok(text) => Ok(text@),
        Err(e) => Err(e),
    }
}

/// The key that stored bytes hold: there is one exactly if they are 32.
pub fn key_from_bytes(bytes: &Vec<u8>) -> (r: Result<[u8; 32], CryptoError>)
    ensures
        match r {
            Ok(key) => bytes@.len() == KEY_LENGTH && key@ == bytes@,
            Err(e) => bytes@.len() != KEY_LENGTH && e == CryptoError::InvalidKeyLength,
        },
{
    if bytes.len() != KEY_LENGTH {
        return Err(CryptoError::InvalidKeyLength);
    }
    let mut key = [0u8; 32];
    let mut i: usize = 0;
    while i < KEY_LENGTH
        invariant
            i <= KEY_LENGTH,
            bytes@.len() == KEY_LENGTH,
            forall|j: int| 0 <= j < i ==> key@[j] == bytes@[j],
        decreases KEY_LENGTH - i,
    {
        key[i] = bytes[i];
        i = i + 1;
    }
    assert(key@ =~= bytes@);
    Ok(key)
}

/// A new key, drawn at random.
pub fn generate_key() -> (r: [u8; 32]) {
    random_bytes::<32>()
}

/// Puts a nonce before its ciphertext: the form in which they are stored.
pub fn frame(nonce: &[u8; 12], ciphertext: &Vec<u8>) -> (r: Vec<u8>)
    ensures
        r@ == nonce@ + ciphertext@,
{
    let mut framed: Vec<u8> = Vec::new();
    let mut i: usize = 0;
    while i < NONCE_LENGTH
        invariant
            i <= NONCE_LENGTH,
            framed@ == nonce@.subrange(0, i as int),
        decreases NONCE_LENGTH - i,
    {
        framed.push(nonce[i]);
        assert(framed@ =~= nonce@.subrange(0, i + 1));
        i = i + 1;
    }
    assert(framed@ =~= nonce@);
    let mut j: usize = 0;
    while j < ciphertext.len()
        invariant
            j <= ciphertext.len(),
            framed@ == nonce@ + ciphertext@.subrange(0, j as int),
        decreases ciphertext.len() - j,
    {
        framed.push(ciphertext[j]);
        assert(framed@ =~= nonce@ + ciphertext@.subrange(0, j + 1));
        j = j + 1;
    }
    assert(framed@ =~= nonce@ + ciphertext@);
    framed
}

/// Takes stored bytes apart into the nonce and the ciphertext. Bytes too
/// few to hold a nonce are refused.
pub fn split_frame(framed: &[u8]) -> (r: Result<(&[u8], &[u8]), CryptoError>)
    ensures
        match r {
            Ok((nonce, ciphertext)) => {
                &&& framed@.len() >= NONCE_LENGTH
                &&& nonce@ == framed@.subrange(0, NONCE_LENGTH as int)
                &&& ciphertext@ == framed@.subrange(NONCE_LENGTH as int, framed@.len() as int)
            },
            Err(e) => framed@.len() < NONCE_LENGTH && e == CryptoError::TooShort,
        },
{
    if framed.len() < NONCE_LENGTH {
        return Err(CryptoError::TooShort);
    }
    Ok(framed.split_at(NONCE_LENGTH))
}

/// Seals a text under a key with the given nonce. What comes out opens
/// under the same key to the same text.
pub fn encrypt_with_nonce(key: &[u8; 32], nonce: &[u8; 12], data: &str) -> (r: Result<
    String,
    CryptoError,
>)
    ensures
        text_view(r) == sealed_text(key@, nonce@, data@),
        r matches Ok(stored) ==> opened_text(key@, stored@) == Ok::<Seq<char>, CryptoError>(data@),
{
    let plaintext = data.as_bytes();
    if plaintext.len() > usize::MAX - TAG_LENGTH {
        return Err(CryptoError::Encryption);
    }
    match seal(key, nonce.as_slice(), plaintext) {
        Ok(ciphertext) => {
            let framed = frame(nonce, &ciphertext);
            if framed.len() / 3 >= usize::MAX / 4 {
                return Err(CryptoError::Encryption);
            }
            let stored = encode_base64(framed.as_slice());
            proof {
                lemma_sealed_text_opens(key@, nonce@, data@, stored@);
            }
            Ok(stored)
        },
        Err(_) => Err(CryptoError::Encryption),
    }
}

/// Seals a text under a key, with a nonce drawn anew. What comes out opens
/// under the same key to the same text.
pub fn encrypt(key: &[u8; 32], data: &str) -> (r: Result<String, CryptoError>)
    ensures
        exists|nonce: Seq<u8>|
            nonce.len() == NONCE_LENGTH && text_view(r) == #[trigger] sealed_text(
                key@,
                nonce,
                data@,
            ),
        r matches Ok(stored) ==> opened_text(key@, stored@) == Ok::<Seq<char>, CryptoError>(data@),
{
    let nonce = random_bytes::<12>();
    let r = encrypt_with_nonce(key, &nonce, data);
    assert(text_view(r) == sealed_text(key@, nonce@, data@));
    r
}

/// Opens a stored text under a key.
pub fn decrypt(key: &[u8; 32], encrypted_data: &str) -> (r: Result<String, CryptoError>)
    ensures
        text_view(r) == opened_text(key@, encrypted_data@),
{
    let framed = match decode_base64(encrypted_data) {
        Ok(bytes) => bytes,
        Err(_) => {
            return Err(CryptoError::Encoding);
        },
    };
    match split_frame(framed.as_slice()) {
        Ok((nonce, ciphertext)) => match open(key, nonce, ciphertext) {
            Ok(plaintext) => match text_from_bytes(plaintext) {
                Some(text) => Ok(text),
                None => Err(CryptoError::NotText),
            },
            Err(_) => Err(CryptoError::Decryption),
        },
        Err(e) => Err(e),
    }
}

/// The stored secrets as text, where they can be had: a key is at hand,
/// something is stored, and it opens under the key.
pub open spec fn stored_text(key: Option<[u8; 32]>, stored: Option<String>) -> Option<Seq<char>> {
    match (key, stored) {
        (Some(k), Some(s)) => match opened_text(k@, s@) {
            Ok(text) => Some(text),
            Err(_) => None,
        },
        _ => None,
    }
}

/// Opens the stored secrets. Where no key is at hand, nothing is stored, or
/// what is stored does not open, there are none.
pub fn open_stored(key: &Option<[u8; 32]>, stored: &Option<String>) -> (r: Option<String>)
    ensures
        r.deep_view() == stored_text(*key, *stored),
{
    match (key, stored) {
        (Some(k), Some(s)) => match decrypt(k, s.as_str()) {
            Ok(text) => Some(text),
            Err(_) => None,
        },
        _ => None,
    }
}

/// What was sealed under a key opens under the same key to the same text,
/// given that the cipher opens what it has sealed and the encoding reads
/// what it has written.
proof fn lemma_sealed_text_opens(
    key: Seq<u8>,
    nonce: Seq<u8>,
    data: Seq<char>,
    stored: Seq<char>,
)
    requires
        nonce.len() == NONCE_LENGTH,
        sealed_text(key, nonce, data) == Ok::<Seq<char>, CryptoError>(stored),
        sealed(key, nonce, encode_utf8(data)) matches Some(ciphertext) ==> {
            &&& opened(key, nonce, ciphertext) == Some(encode_utf8(data))
            &&& base64_bytes(base64_text(nonce + ciphertext)) == Some(nonce + ciphertext)
        },
    ensures
        opened_text(key, stored) == Ok::<Seq<char>, CryptoError>(data),
{
    broadcast use vstd::utf8::encode_utf8_valid_utf8, vstd::utf8::encode_utf8_decode_utf8;

    let ciphertext = sealed(key, nonce, encode_utf8(data))->0;
    let framed = nonce + ciphertext;
    assert(framed.subrange(0, NONCE_LENGTH as int) =~= nonce);
    assert(framed.subrange(NONCE_LENGTH as int, framed.len() as int) =~= ciphertext);
}

} // verus!
