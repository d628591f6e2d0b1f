//! Symmetric ciphers: AES-128-CBC with PKCS7 padding for request bodies and
//! AES-256-GCM for notification resources.

use crate::encoding::{
    base64_bytes, base64_decode, base64_encode, base64_text, fits, fits_openssl, stack_text,
    utf8_string, BASE64_MAX_INPUT,
};
use crate::error::{text_outcome, WeaError};
use aes::cipher::block_padding::Pkcs7;
use aes::cipher::{BlockDecryptMut, BlockEncryptMut, KeyIvInit};
use aes_gcm::aead::{Aead, Payload};
use aes_gcm::{Aes256Gcm, KeyInit, Nonce};
use vstd::prelude::*;
use vstd::string::StringExecFns;
use vstd::utf8::{
    decode_utf8, encode_utf8, encode_utf8_decode_utf8, encode_utf8_valid_utf8, valid_utf8,
};

verus! {

/// The AES-128-CBC ciphertext of `msg` after PKCS7 padding, as the `cbc` and
/// `aes` crates compute it.
pub uninterp spec fn aes128_cbc_ciphertext(key: Seq<u8>, iv: Seq<u8>, msg: Seq<u8>) -> Seq<u8>;

/// The plaintext that the `cbc` and `aes` crates recover from `data` with
/// AES-128-CBC, or `None` where the padding is malformed.
pub uninterp spec fn aes128_cbc_plaintext(key: Seq<u8>, iv: Seq<u8>, data: Seq<u8>) -> Option<
    Seq<u8>,
>;

/// The AES-256-GCM ciphertext with its tag that the `aes_gcm` crate computes,
/// or `None` where it refuses the lengths.
pub uninterp spec fn aes256_gcm_ciphertext(
    key: Seq<u8>,
    nonce: Seq<u8>,
    msg: Seq<u8>,
    aad: Seq<u8>,
) -> Option<Seq<u8>>;

/// The plaintext that the `aes_gcm` crate recovers with AES-256-GCM, or `None`
/// where the tag does not authenticate `data` and `aad`.
pub uninterp spec fn aes256_gcm_plaintext(
    key: Seq<u8>,
    nonce: Seq<u8>,
    data: Seq<u8>,
    aad: Seq<u8>,
) -> Option<Seq<u8>>;

/// Calls `cbc::Encryptor::<aes::Aes128>::new_from_slices` and
/// `encrypt_padded_mut::<Pkcs7>` on a buffer that holds the message in its
/// first `msg_len` bytes.
///
/// Trusted: the cipher is made exactly for a 16-byte key and a 16-byte IV;
/// padding succeeds exactly where the buffer has room for the message filled
/// up to the next whole block; the ciphertext depends on key, IV and message
/// alone, has that padded length, and the matching decryptor recovers the
/// message from it.
#[verifier::external_body]
pub(crate) fn aes128_cbc_encrypt(key: &[u8], iv: &[u8], buf: Vec<u8>, msg_len: usize) -> (r: Option<
    Option<Vec<u8>>,
>)
    requires
        msg_len <= buf@.len(),
    ensures
        r is Some <==> (key@.len() == 16 && iv@.len() == 16),
        r matches Some(inner) ==> (inner is Some <==> buf@.len() >= msg_len - msg_len % 16 + 16),
        r matches Some(Some(data)) ==> {
            &&& data@ == aes128_cbc_ciphertext(key@, iv@, buf@.take(msg_len as int))
            &&& data@.len() == msg_len - msg_len % 16 + 16
            &&& aes128_cbc_plaintext(key@, iv@, data@) == Some(buf@.take(msg_len as int))
        },
{
    let mut buf = buf;
    let cipher = cbc::Encryptor::<aes::Aes128>::new_from_slices(key, iv).ok()?;
    Some(cipher.encrypt_padded_mut::<Pkcs7>(&mut buf, msg_len).ok().map(|data| data.to_vec()))
}

/// Calls `cbc::Decryptor::<aes::Aes128>::new_from_slices` and
/// `decrypt_padded_b2b_mut::<Pkcs7>` with `out` as the output buffer.
///
/// Trusted: the cipher is made exactly for a 16-byte key and a 16-byte IV; with
/// an output buffer at least as long as the data, the outcome depends on key,
/// IV and data alone, and the inner `None` stands for the padding error.
#[verifier::external_body]
pub(crate) fn aes128_cbc_decrypt(key: &[u8], iv: &[u8], data: &[u8], out: Vec<u8>) -> (r: Option<
    Option<Vec<u8>>,
>)
    requires
        out@.len() >= data@.len(),
    ensures
        r is Some <==> (key@.len() == 16 && iv@.len() == 16),
        r matches Some(inner) ==> match inner {
            Some(msg) => aes128_cbc_plaintext(key@, iv@, data@) == Some(msg@),
            None => aes128_cbc_plaintext(key@, iv@, data@) is None,
        },
{
    let mut out = out;
    let cipher = cbc::Decryptor::<aes::Aes128>::new_from_slices(key, iv).ok()?;
    Some(cipher.decrypt_padded_b2b_mut::<Pkcs7>(data, &mut out).ok().map(|msg| msg.to_vec()))
}

/// Calls `Aes256Gcm::new_from_slice` and `Aead::encrypt`.
///
/// Trusted: the cipher is made exactly for a 32-byte key; the outcome depends
/// on key, nonce, message and associated data alone, and decrypting the
/// ciphertext under the same nonce and associated data recovers the message.
/// A nonce of another length than twelve makes the outside function panic and
/// is excluded, and so is a message within sixteen bytes of the address
/// space, for which it could not allocate.
#[verifier::external_body]
pub(crate) fn aes256_gcm_encrypt(key: &[u8], nonce: &[u8], msg: &[u8], aad: &[u8]) -> (r: Option<
    Option<Vec<u8>>,
>)
    requires
        nonce@.len() == 12,
        msg@.len() + 16 <= usize::MAX,
    ensures
        r is Some <==> key@.len() == 32,
        r matches Some(inner) ==> match inner {
            Some(data) => {
                &&& aes256_gcm_ciphertext(key@, nonce@, msg@, aad@) == Some(data@)
                &&& aes256_gcm_plaintext(key@, nonce@, data@, aad@) == Some(msg@)
            },
            None => aes256_gcm_ciphertext(key@, nonce@, msg@, aad@) is None,
        },
{
    let cipher = Aes256Gcm::new_from_slice(key).ok()?;
    Some(cipher.encrypt(Nonce::from_slice(nonce), Payload { msg, aad }).ok())
}

/// Calls `Aes256Gcm::new_from_slice` and `Aead::decrypt`.
///
/// Trusted: the cipher is made exactly for a 32-byte key; the outcome depends
/// on key, nonce, data and associated data alone, and the inner `None` stands
/// for the authentication failure. The data end with a tag of sixteen bytes,
/// which the plaintext lacks: shorter data never decrypt. A nonce of another
/// length than twelve makes the outside function panic and is excluded.
#[verifier::external_body]
pub(crate) fn aes256_gcm_decrypt(key: &[u8], nonce: &[u8], data: &[u8], aad: &[u8]) -> (r: Option<
    Option<Vec<u8>>,
>)
    requires
        nonce@.len() == 12,
    ensures
        r is Some <==> key@.len() == 32,
        r matches Some(inner) ==> match inner {
            Some(msg) => aes256_gcm_plaintext(key@, nonce@, data@, aad@) == Some(msg@),
            None => aes256_gcm_plaintext(key@, nonce@, data@, aad@) is None,
        },
        r matches Some(Some(msg)) ==> data@.len() == msg@.len() + 16,
{
    let cipher = Aes256Gcm::new_from_slice(key).ok()?;
    Some(cipher.decrypt(Nonce::from_slice(nonce), Payload { msg: data, aad }).ok())
}

/// The initialisation vector of the body cipher: sixteen zero bytes, as the
/// provider's protocol fixes it. It must not serve any other purpose.
pub open spec fn zero_iv() -> Seq<u8> {
    Seq::new(16, |i: int| 0u8)
}

fn zero_block() -> (iv: Vec<u8>)
    ensures
        iv@ == zero_iv(),
{
    let mut iv: Vec<u8> = Vec::new();
    while iv.len() < 16
        invariant
            iv.len() <= 16,
            forall|i: int| 0 <= i < iv.len() ==> iv@[i] == 0u8,
        decreases 16 - iv.len(),
    {
        iv.push(0u8);
    }
    assert(iv@ =~= zero_iv());
    iv
}

/// A buffer of `total` bytes that begins with `msg` and is zero after it.
fn padded_copy(msg: &[u8], total: usize) -> (buf: Vec<u8>)
    requires
        msg@.len() <= total,
    ensures
        buf@.len() == total,
        buf@.take(msg@.len() as int) == msg@,
{
    let mut buf: Vec<u8> = Vec::new();
    let mut i: usize = 0;
    while i < msg.len()
        invariant
            i <= msg.len(),
            buf@ == msg@.take(i as int),
        decreases msg.len() - i,
    {
        buf.push(msg[i]);
        assert(buf@ =~= msg@.take(i + 1));
        i += 1;
    }
    assert(msg@.take(i as int) =~= msg@);
    while buf.len() < total
        invariant
            msg@.len() <= buf.len() <= total,
            buf@.take(msg@.len() as int) == msg@,
        decreases total - buf.len(),
    {
        let ghost before = buf@;
        buf.push(0u8);
        assert(buf@.take(msg@.len() as int) =~= before.take(msg@.len() as int));
    }
    buf
}

/// The text that bytes stand for: their UTF-8 reading, or the error kind
/// `Utf8`.
pub open spec fn utf8_outcome(bytes: Seq<u8>) -> Result<Seq<char>, Seq<char>> {
    if valid_utf8(bytes) {
        Ok(decode_utf8(bytes))
    } else {
        Err("Utf8"@)
    }
}

/// What encrypting `data` for the request body comes to: the base64 text of
/// the AES-128-CBC ciphertext under the base64 key `key`.
pub open spec fn cbc_encryption_outcome(data: Seq<char>, key: Seq<char>) -> Result<
    Seq<char>,
    Seq<char>,
> {
    if !fits(key) || encode_utf8(data).len() + 16 > BASE64_MAX_INPUT {
        Err("TooLong"@)
    } else {
        match base64_bytes(key) {
            None => Err("KeyLoad"@),
            Some(raw_key) => if raw_key.len() != 16 {
                Err("KeyLoad"@)
            } else {
                Ok(base64_text(aes128_cbc_ciphertext(raw_key, zero_iv(), encode_utf8(data))))
            },
        }
    }
}

/// What decrypting the base64 text `data` of a body comes to.
pub open spec fn cbc_decryption_outcome(data: Seq<char>, key: Seq<char>) -> Result<
    Seq<char>,
    Seq<char>,
> {
    if !fits(key) || !fits(data) {
        Err("TooLong"@)
    } else {
        match base64_bytes(key) {
            None => Err("KeyLoad"@),
            Some(raw_key) => match base64_bytes(data) {
                None => Err("Base64"@),
                Some(raw) => if raw_key.len() != 16 {
                    Err("KeyLoad"@)
                } else {
                    match aes128_cbc_plaintext(raw_key, zero_iv(), raw) {
                        None => Err("Padding"@),
                        Some(msg) => utf8_outcome(msg),
                    }
                },
            },
        }
    }
}

/// Encrypts `data` with AES-128-CBC under the base64 key `key`, a zero IV and
/// PKCS7 padding, and returns the ciphertext in base64.
///
/// The error kind is `TooLong` where key or data is longer than OpenSSL takes
/// and `KeyLoad` where the key is no base64 text or does not hold sixteen
/// bytes. Decrypting the result under the same key gives `data` back. The
/// result is the base64 text of the ciphertext alone, with no IV before it:
/// the data filled up to the next whole block of sixteen bytes, a whole block
/// of padding where the data end on one.
pub fn cbc_encrypt(data: &str, key: &str) -> (r: Result<String, WeaError>)
    ensures
        text_outcome(r) == cbc_encryption_outcome(data@, key@),
        r matches Ok(text) ==> cbc_decryption_outcome(text@, key@) == Ok::<Seq<char>, Seq<char>>(
            data@,
        ),
        r matches Ok(text) ==> (base64_bytes(text@) matches Some(raw) && raw.len() == 16 * (
            encode_utf8(data@).len() / 16 + 1)),
{
    let msg = data.as_bytes();
    let msg_len: usize = msg.len();
    if !fits_openssl(key) || msg_len > BASE64_MAX_INPUT - 16 {
        return Err(WeaError::new("TooLong", String::from_str("key or data too long")));
    }
    let raw_key = match base64_decode(key) {
        Err(stack) => { return Err(WeaError::new("KeyLoad", stack_text(&stack))); },
        Ok(raw_key) => raw_key,
    };
    let iv = zero_block();
    let buf = padded_copy(msg, msg_len + (16 - msg_len % 16));
    match aes128_cbc_encrypt(raw_key.as_slice(), iv.as_slice(), buf, msg_len) {
        None => Err(WeaError::new("KeyLoad", String::from_str("the key must hold 16 bytes"))),
        Some(None) => Err(WeaError::new("Padding", String::from_str("padding error"))),
        Some(Some(raw)) => {
            let text = base64_encode(raw.as_slice());
            proof {
                encode_utf8_valid_utf8(data@);
                encode_utf8_decode_utf8(data@);
            }
            Ok(text)
        },
    }
}

/// Decrypts the base64 text `data` with AES-128-CBC under the base64 key
/// `key`, a zero IV and PKCS7 padding.
///
/// The error kind is `TooLong` where key or data is longer than OpenSSL
/// takes, `KeyLoad` for an unusable key, `Base64` where `data` is no base64
/// text, `Padding` where the padding is malformed and `Utf8` where the
/// plaintext is no UTF-8 text.
pub fn cbc_decrypt(data: &str, key: &str) -> (r: Result<String, WeaError>)
    ensures
        text_outcome(r) == cbc_decryption_outcome(data@, key@),
{
    if !fits_openssl(key) || !fits_openssl(data) {
        return Err(WeaError::new("TooLong", String::from_str("key or data too long")));
    }
    let raw_key = match base64_decode(key) {
        Err(stack) => { return Err(WeaError::new("KeyLoad", stack_text(&stack))); },
        Ok(raw_key) => raw_key,
    };
    let raw = match base64_decode(data) {
        Err(stack) => { return Err(WeaError::new("Base64", stack_text(&stack))); },
        Ok(raw) => raw,
    };
    let iv = zero_block();
    let out = padded_copy(&[], raw.len());
    match aes128_cbc_decrypt(raw_key.as_slice(), iv.as_slice(), raw.as_slice(), out) {
        None => Err(WeaError::new("KeyLoad", String::from_str("the key must hold 16 bytes"))),
        Some(None) => Err(WeaError::new("Padding", String::from_str("malformed padding"))),
        Some(Some(msg)) => match utf8_string(msg) {
            None => Err(WeaError::new("Utf8", String::from_str("the plaintext is no UTF-8 text"))),
            Some(text) => Ok(text),
        },
    }
}

/// What decrypting a notification resource comes to. The key and the nonce
/// are used as their UTF-8 bytes; the ciphertext arrives in base64.
pub open spec fn gcm_decryption_outcome(
    key: Seq<char>,
    nonce: Seq<char>,
    ciphertext: Seq<char>,
    associated_data: Seq<char>,
) -> Result<Seq<char>, Seq<char>> {
    if !fits(ciphertext) {
        Err("TooLong"@)
    } else if encode_utf8(key).len() != 32 {
        Err("KeyLoad"@)
    } else if encode_utf8(nonce).len() != 12 {
        Err("AeadFailure"@)
    } else {
        match base64_bytes(ciphertext) {
            None => Err("Base64"@),
            Some(raw) => match aes256_gcm_plaintext(
                encode_utf8(key),
                encode_utf8(nonce),
                raw,
                encode_utf8(associated_data),
            ) {
                None => Err("AeadFailure"@),
                Some(msg) => utf8_outcome(msg),
            },
        }
    }
}

/// Decrypts a notification resource with AES-256-GCM.
///
/// The error kind is `TooLong` where the ciphertext is longer than OpenSSL
/// takes, `KeyLoad` where the key does not hold 32 bytes, `AeadFailure` where
/// the nonce does not hold 12 bytes or the tag does not authenticate
/// ciphertext and associated data, `Base64` where the ciphertext is no base64
/// text and `Utf8` where the plaintext is no UTF-8 text. What decrypts is
/// sixteen bytes, the tag, longer than its plaintext: a ciphertext cut below
/// that never decrypts.
pub fn gcm_decrypt(key: &str, nonce: &str, ciphertext: &str, associated_data: &str) -> (r: Result<
    String,
    WeaError,
>)
    ensures
        text_outcome(r) == gcm_decryption_outcome(key@, nonce@, ciphertext@, associated_data@),
        r matches Ok(text) ==> (base64_bytes(ciphertext@) matches Some(raw) && raw.len()
            == encode_utf8(text@).len() + 16),
{
    if !fits_openssl(ciphertext) {
        return Err(WeaError::new("TooLong", String::from_str("ciphertext too long")));
    }
    if key.as_bytes().len() != 32 {
        return Err(WeaError::new("KeyLoad", String::from_str("the key must hold 32 bytes")));
    }
    if nonce.as_bytes().len() != 12 {
        return Err(WeaError::new("AeadFailure", String::from_str("the nonce must hold 12 bytes")));
    }
    let raw = match base64_decode(ciphertext) {
        Err(stack) => { return Err(WeaError::new("Base64", stack_text(&stack))); },
        Ok(raw) => raw,
    };
    match aes256_gcm_decrypt(
        key.as_bytes(),
        nonce.as_bytes(),
        raw.as_slice(),
        associated_data.as_bytes(),
    ) {
        None => Err(WeaError::new("KeyLoad", String::from_str("the key must hold 32 bytes"))),
        Some(None) => Err(WeaError::new("AeadFailure", String::from_str("aead::Error"))),
        Some(Some(msg)) => match utf8_string(msg) {
            None => Err(WeaError::new("Utf8", String::from_str("the plaintext is no UTF-8 text"))),
            Some(text) => Ok(text),
        },
    }
}

/// What encrypting a resource comes to: the base64 text of ciphertext and
/// tag.
pub open spec fn gcm_encryption_outcome(
    key: Seq<char>,
    nonce: Seq<char>,
    plaintext: Seq<char>,
    associated_data: Seq<char>,
) -> Result<Seq<char>, Seq<char>> {
    if encode_utf8(plaintext).len() + 16 > BASE64_MAX_INPUT {
        Err("TooLong"@)
    } else if encode_utf8(key).len() != 32 {
        Err("KeyLoad"@)
    } else if encode_utf8(nonce).len() != 12 {
        Err("AeadFailure"@)
    } else {
        match aes256_gcm_ciphertext(
            encode_utf8(key),
            encode_utf8(nonce),
            encode_utf8(plaintext),
            encode_utf8(associated_data),
        ) {
            None => Err("AeadFailure"@),
            Some(raw) => if raw.len() <= BASE64_MAX_INPUT {
                Ok(base64_text(raw))
            } else {
                Err("AeadFailure"@)
            },
        }
    }
}

/// Encrypts a resource with AES-256-GCM, the counterpart of `gcm_decrypt`.
///
/// The error kind is `TooLong` where the plaintext is longer than can be
/// written in base64, `KeyLoad` where the key does not hold 32 bytes and
/// `AeadFailure` where the nonce does not hold 12 bytes or the cipher refuses
/// the lengths. Decrypting the result under the same key, nonce and
/// associated data gives `plaintext` back.
pub fn gcm_encrypt(key: &str, nonce: &str, plaintext: &str, associated_data: &str) -> (r: Result<
    String,
    WeaError,
>)
    ensures
        text_outcome(r) == gcm_encryption_outcome(key@, nonce@, plaintext@, associated_data@),
        r matches Ok(text) ==> gcm_decryption_outcome(key@, nonce@, text@, associated_data@) == Ok::<
            Seq<char>,
            Seq<char>,
        >(plaintext@),
{
    if plaintext.as_bytes().len() > BASE64_MAX_INPUT - 16 {
        return Err(WeaError::new("TooLong", String::from_str("plaintext too long")));
    }
    if key.as_bytes().len() != 32 {
        return Err(WeaError::new("KeyLoad", String::from_str("the key must hold 32 bytes")));
    }
    if nonce.as_bytes().len() != 12 {
        return Err(WeaError::new("AeadFailure", String::from_str("the nonce must hold 12 bytes")));
    }
    match aes256_gcm_encrypt(
        key.as_bytes(),
        nonce.as_bytes(),
        plaintext.as_bytes(),
        associated_data.as_bytes(),
    ) {
        None => Err(WeaError::new("KeyLoad", String::from_str("the key must hold 32 bytes"))),
        Some(None) => Err(WeaError::new("AeadFailure", String::from_str("aead::Error"))),
        Some(Some(raw)) => {
            if raw.len() > BASE64_MAX_INPUT {
                return Err(WeaError::new("AeadFailure", String::from_str("ciphertext too long")));
            }
            let text = base64_encode(raw.as_slice());
            proof {
                encode_utf8_valid_utf8(plaintext@);
                encode_utf8_decode_utf8(plaintext@);
            }
            Ok(text)
        },
    }
}

} // verus!
