use weapay::alipay::common::BaseTrait;
use weapay::cipher::{cbc_decrypt, cbc_encrypt, gcm_decrypt, gcm_encrypt};
use weapay::wechat::common::BaseTrait as WechatBase;
use weapay::{AlipayConfig, Payment, WechatConfig};

const GCM_KEY: &str = "0123456789abcdef0123456789abcdef";

#[test]
fn test_aes_encrypt_decrypt() {
    let key = openssl::base64::encode_block(b"1234567890123456");
    println!("key=={}", key);
    let config = AlipayConfig { mch_key: Some(key.to_string()), ..Default::default() };
    let payment = Payment::<AlipayConfig>::new(config);
    let data = "hello world";
    let encrypt_data = payment.encrypt(data).unwrap();
    let decrypt_data = payment.decrypt(&encrypt_data).unwrap();
    assert_eq!(data, decrypt_data);
}

#[test]
fn cbc_gives_the_known_ciphertext() {
    // AES-128-CBC of "hello world" under the key "1234567890123456" and a zero IV.
    let key = "MTIzNDU2Nzg5MDEyMzQ1Ng==";
    let text = cbc_encrypt("hello world", key).unwrap();
    let raw = openssl::base64::decode_block(&text).unwrap();
    assert_eq!(raw.len(), 16);
    let expected = openssl::symm::encrypt(
        openssl::symm::Cipher::aes_128_cbc(),
        b"1234567890123456",
        Some(&[0u8; 16]),
        b"hello world",
    ).unwrap();
    assert_eq!(raw, expected);
    assert_ne!(text, "hello world");
}

#[test]
fn cbc_round_trip_holds_for_texts_of_many_lengths() {
    let key = openssl::base64::encode_block(b"abcdefghijklmnop");
    let mut text = String::new();
    for n in 0..70 {
        let encrypted = cbc_encrypt(&text, &key).unwrap();
        let raw = openssl::base64::decode_block(&encrypted).unwrap();
        assert_eq!(raw.len(), n - n % 16 + 16);
        assert_eq!(cbc_decrypt(&encrypted, &key).unwrap(), text);
        text.push(if n % 7 == 0 { '\u{4e2d}' } else { 'x' });
        if n % 7 == 0 {
            // the pushed character takes three bytes
            let encrypted = cbc_encrypt(&text, &key).unwrap();
            assert_eq!(cbc_decrypt(&encrypted, &key).unwrap(), text);
            text.pop();
            text.push('y');
        }
    }
}

#[test]
fn cbc_rejects_keys_that_do_not_hold_sixteen_bytes() {
    let short = openssl::base64::encode_block(b"123456789012345");
    assert_eq!(cbc_encrypt("x", &short).unwrap_err().kind(), "KeyLoad");
    assert_eq!(cbc_decrypt("AAAAAAAAAAAAAAAAAAAAAA==", &short).unwrap_err().kind(), "KeyLoad");
    let long = openssl::base64::encode_block(b"12345678901234567890123456789012");
    assert_eq!(cbc_encrypt("x", &long).unwrap_err().kind(), "KeyLoad");
    assert_eq!(cbc_encrypt("x", "no base64!").unwrap_err().kind(), "KeyLoad");
}

#[test]
fn cbc_decrypt_tells_its_errors_apart() {
    let key = openssl::base64::encode_block(b"1234567890123456");
    assert_eq!(cbc_decrypt("%%%", &key).unwrap_err().kind(), "Base64");
    // fifteen bytes are no whole block
    let odd = openssl::base64::encode_block(&[7u8; 15]);
    assert_eq!(cbc_decrypt(&odd, &key).unwrap_err().kind(), "Padding");
    assert_eq!(cbc_decrypt("", &key).unwrap_err().kind(), "Padding");
    // a block that decrypts to bytes without valid padding
    let other = openssl::base64::encode_block(b"6543210987654321");
    let encrypted = cbc_encrypt("hello world", &other).unwrap();
    let r = cbc_decrypt(&encrypted, &key);
    assert!(r.is_err() || r.unwrap() != "hello world");
    // valid padding around bytes that are no UTF-8 text
    let raw = openssl::symm::encrypt(
        openssl::symm::Cipher::aes_128_cbc(),
        b"1234567890123456",
        Some(&[0u8; 16]),
        &[0xff, 0xfe, 0xfd],
    ).unwrap();
    let text = openssl::base64::encode_block(&raw);
    assert_eq!(cbc_decrypt(&text, &key).unwrap_err().kind(), "Utf8");
}

#[test]
fn a_client_without_body_key_cannot_encrypt() {
    let payment = Payment::<AlipayConfig>::new(AlipayConfig::default());
    assert_eq!(payment.encrypt("x").unwrap_err().kind(), "KeyLoad");
    assert_eq!(payment.decrypt("x").unwrap_err().kind(), "KeyLoad");
}

#[test]
fn gcm_round_trip_holds() {
    for plaintext in ["", "a", "{\"out_trade_no\":\"T1\"}", "\u{652f}\u{4ed8}\u{6210}\u{529f}"] {
        for aad in ["", "transaction", "certificate"] {
            let text = gcm_encrypt(GCM_KEY, "SbmLlX0uxbQG", plaintext, aad).unwrap();
            assert_eq!(gcm_decrypt(GCM_KEY, "SbmLlX0uxbQG", &text, aad).unwrap(), plaintext);
            let raw = openssl::base64::decode_block(&text).unwrap();
            assert_eq!(raw.len(), plaintext.len() + 16);
        }
    }
}

#[test]
fn gcm_decrypts_what_the_cipher_of_openssl_made() {
    let mut tag = [0u8; 16];
    let mut raw = openssl::symm::encrypt_aead(
        openssl::symm::Cipher::aes_256_gcm(),
        GCM_KEY.as_bytes(),
        Some(b"0123456789ab"),
        b"transaction",
        b"{\"out_trade_no\":\"T20240407003\"}",
        &mut tag,
    ).unwrap();
    raw.extend_from_slice(&tag);
    let text = openssl::base64::encode_block(&raw);
    assert_eq!(
        gcm_decrypt(GCM_KEY, "0123456789ab", &text, "transaction").unwrap(),
        "{\"out_trade_no\":\"T20240407003\"}"
    );
    assert_eq!(
        gcm_encrypt(GCM_KEY, "0123456789ab", "{\"out_trade_no\":\"T20240407003\"}", "transaction").unwrap(),
        text
    );
}

#[test]
fn gcm_fails_on_wrong_associated_data() {
    let text = gcm_encrypt(GCM_KEY, "SbmLlX0uxbQG", "secret", "transaction").unwrap();
    assert_eq!(gcm_decrypt(GCM_KEY, "SbmLlX0uxbQG", &text, "refund").unwrap_err().kind(), "AeadFailure");
    assert_eq!(gcm_decrypt(GCM_KEY, "SbmLlX0uxbQG", &text, "").unwrap_err().kind(), "AeadFailure");
}

#[test]
fn gcm_fails_on_truncated_or_changed_ciphertext() {
    let text = gcm_encrypt(GCM_KEY, "SbmLlX0uxbQG", "a longer secret text", "aad").unwrap();
    let raw = openssl::base64::decode_block(&text).unwrap();
    for keep in [0usize, 1, 15, 16, 20, raw.len() - 1] {
        let cut = openssl::base64::encode_block(&raw[..keep]);
        assert_eq!(gcm_decrypt(GCM_KEY, "SbmLlX0uxbQG", &cut, "aad").unwrap_err().kind(), "AeadFailure");
    }
    let mut changed = raw.clone();
    changed[3] ^= 1;
    let changed = openssl::base64::encode_block(&changed);
    assert_eq!(gcm_decrypt(GCM_KEY, "SbmLlX0uxbQG", &changed, "aad").unwrap_err().kind(), "AeadFailure");
}

#[test]
fn gcm_fails_on_wrong_key_or_nonce() {
    let text = gcm_encrypt(GCM_KEY, "SbmLlX0uxbQG", "secret", "aad").unwrap();
    let other = "abcdef0123456789abcdef0123456789";
    assert_eq!(gcm_decrypt(other, "SbmLlX0uxbQG", &text, "aad").unwrap_err().kind(), "AeadFailure");
    assert_eq!(gcm_decrypt(GCM_KEY, "SbmLlX0uxbQH", &text, "aad").unwrap_err().kind(), "AeadFailure");
}

#[test]
fn gcm_tells_its_errors_apart() {
    assert_eq!(gcm_decrypt("short", "SbmLlX0uxbQG", "AAAA", "").unwrap_err().kind(), "KeyLoad");
    assert_eq!(gcm_decrypt(GCM_KEY, "short", "AAAA", "").unwrap_err().kind(), "AeadFailure");
    assert_eq!(gcm_decrypt(GCM_KEY, "thirteen byte", "AAAA", "").unwrap_err().kind(), "AeadFailure");
    assert_eq!(gcm_decrypt(GCM_KEY, "SbmLlX0uxbQG", "%%%", "").unwrap_err().kind(), "Base64");
    assert_eq!(gcm_encrypt("short", "SbmLlX0uxbQG", "x", "").unwrap_err().kind(), "KeyLoad");
    assert_eq!(gcm_encrypt(GCM_KEY, "short", "x", "").unwrap_err().kind(), "AeadFailure");
    let raw = openssl::symm::encrypt_aead(
        openssl::symm::Cipher::aes_256_gcm(),
        GCM_KEY.as_bytes(),
        Some(b"SbmLlX0uxbQG"),
        b"",
        &[0xff, 0xfe],
        &mut [0u8; 16],
    ).unwrap();
    let mut tag = [0u8; 16];
    let mut full = openssl::symm::encrypt_aead(
        openssl::symm::Cipher::aes_256_gcm(),
        GCM_KEY.as_bytes(),
        Some(b"SbmLlX0uxbQG"),
        b"",
        &[0xff, 0xfe],
        &mut tag,
    ).unwrap();
    assert_eq!(raw, full);
    full.extend_from_slice(&tag);
    let text = openssl::base64::encode_block(&full);
    assert_eq!(gcm_decrypt(GCM_KEY, "SbmLlX0uxbQG", &text, "").unwrap_err().kind(), "Utf8");
}

#[test]
fn a_client_decrypts_what_it_encrypted() {
    let config = WechatConfig { mch_key: GCM_KEY.to_string(), ..Default::default() };
    let payment = Payment::new(config);
    let text = payment.encrypt_content("SbmLlX0uxbQG", "{\"a\":1}", "transaction").unwrap();
    assert_eq!(payment.decrypt_content("SbmLlX0uxbQG", &text, "transaction").unwrap(), "{\"a\":1}");
    assert_eq!(
        payment.decrypt_content("SbmLlX0uxbQG", &text, "other").unwrap_err().kind(),
        "AeadFailure"
    );
}

#[test]
fn the_ciphertext_is_the_data_filled_up_to_whole_blocks() {
    let key = openssl::base64::encode_block(b"1234567890123456");
    let payment = Payment::<AlipayConfig>::new(AlipayConfig { mch_key: Some(key), ..Default::default() });
    for data in ["", "a", "fifteen bytes..", "sixteen bytes...", "seventeen bytes..", "\u{4e2d}\u{6587}"] {
        let raw = openssl::base64::decode_block(&payment.encrypt(data).unwrap()).unwrap();
        assert_eq!(raw.len(), 16 * (data.len() / 16 + 1));
    }
    // equal inputs give equal output, and no IV stands before the ciphertext
    assert_eq!(payment.encrypt("hello world").unwrap(), payment.encrypt("hello world").unwrap());
    assert_eq!(openssl::base64::decode_block(&payment.encrypt("hello world").unwrap()).unwrap().len(), 16);
}
