use openssl::asn1::Asn1Time;
use openssl::bn::BigNum;
use openssl::hash::MessageDigest;
use openssl::pkey::PKey;
use openssl::rsa::Rsa;
use openssl::x509::{X509Builder, X509NameBuilder};
use weapay::cache::{CertificateCache, CertificateRecord, Resolution};
use weapay::request::{find_header, read_claim, VerificationClaim};
use weapay::signature::{canonical_string, sign, verify};
use weapay::wechat::bill::BillTrait;
use weapay::wechat::common::{authorization_string, check_claim, BaseTrait};
use weapay::wechat::dict::order::{CreateOrderResponse, CreateOrderResult, ReqAmountInfo, ReqOrderBody, TradeType};
use weapay::wechat::dict::refund::{ReqRefundAmountInfo, ReqRefundOrder};
use weapay::wechat::refund::RefundTrait;
use weapay::wechat::dict::cert::{CertData, RespCertItem};
use weapay::wechat::dict::order::RespResource;
use weapay::{Payment, WechatConfig};

/// Key material that is made anew for each test: a private key in its PEM
/// and DER forms, its public key, and a certificate of its own making.
struct Material {
    key: String,
    key_der: String,
    public_der: String,
    cert: String,
}

fn material() -> Material {
    let rsa = Rsa::generate(2048).unwrap();
    let key_der = openssl::base64::encode_block(&rsa.private_key_to_der().unwrap());
    let public_der = openssl::base64::encode_block(&rsa.public_key_to_der().unwrap());
    let pkey = PKey::from_rsa(rsa).unwrap();
    let key = String::from_utf8(pkey.private_key_to_pem_pkcs8().unwrap()).unwrap();
    let mut name = X509NameBuilder::new().unwrap();
    name.append_entry_by_text("C", "CN").unwrap();
    name.append_entry_by_text("O", "Example Pay").unwrap();
    name.append_entry_by_text("OU", "Merchants").unwrap();
    name.append_entry_by_text("CN", "Example Merchant CA").unwrap();
    let name = name.build();
    let serial = BigNum::from_hex_str("5AD141C1086A7945A1394A8AEAA9EB0619751859").unwrap();
    let mut builder = X509Builder::new().unwrap();
    builder.set_version(2).unwrap();
    builder.set_serial_number(&serial.to_asn1_integer().unwrap()).unwrap();
    builder.set_subject_name(&name).unwrap();
    builder.set_issuer_name(&name).unwrap();
    builder.set_pubkey(&pkey).unwrap();
    builder.set_not_before(&Asn1Time::days_from_now(0).unwrap()).unwrap();
    builder.set_not_after(&Asn1Time::days_from_now(3650).unwrap()).unwrap();
    builder.sign(&pkey, MessageDigest::sha256()).unwrap();
    let cert = String::from_utf8(builder.build().to_pem().unwrap()).unwrap();
    Material { key, key_der, public_der, cert }
}

const SHA1_ROOT_PEM: &str = "-----BEGIN CERTIFICATE-----\nMIIDUzCCAjugAwIBAgIIESIQ9H3pgRUwDQYJKoZIhvcNAQEFBQAwPjELMAkGA1UE\nBhMCQ04xFTATBgNVBAoMDEV4YW1wbGUgUm9vdDEYMBYGA1UEAwwPRXhhbXBsZSBS\nb290IFIxMCAXDTI2MTAyODIxNTAxMVoYDzIxMjYxMDA0MjE1MDExWjA+MQswCQYD\nVQQGEwJDTjEVMBMGA1UECgwMRXhhbXBsZSBSb290MRgwFgYDVQQDDA9FeGFtcGxl\nIFJvb3QgUjEwggEiMA0GCSqGSIb3DQEBAQUAA4IBDwAwggEKAoIBAQCtFKuimk3c\n94v4qHSGZAbsz6WNLIbqj4Elvt/DuwH3hRKKEPaheWugzbb1LlSHvl0qn335eVz0\n+Te6W8u/t3cA5qL/mWEg1wAY8NiqAR7QFjzJM/00hhyozQ4iUIDCInf3Kc587Y78\nke+lBvUdnxzblnra8A2iav8iVsuH1Eu8z8MvQ9ee0XDtYjmpB1TkCh7WHwVuNLEP\nxtGwZ/Nki+yu4r+5FcewNtM5+lGJmx58x88Kcrv6AI0Xiw0zsuuEM71rVxe5X9s+\ndx+XZyGmShN8QjDiwjhAhJyrnUgjYBPGSjSpcFRbRPG/RBZGmwl9Ccip7PwIELBU\nFQ/OIKYn11JlAgMBAAGjUzBRMB0GA1UdDgQWBBRoKJTvRTJlkOuroNVfpIHeXJil\nSzAfBgNVHSMEGDAWgBRoKJTvRTJlkOuroNVfpIHeXJilSzAPBgNVHRMBAf8EBTAD\nAQH/MA0GCSqGSIb3DQEBBQUAA4IBAQA/eWeFMSIk7P+B485MOQVkMgLW4cW8vPQi\nuyq6WdhETtZ4Md5xmU49gI9B+uRfR5Y9rHVnAEszfHy5K7jajEt0fPdG2ZT6Eyda\nWJrmOacg7f5ofLeWwscy7NshTtcnyqHiTkakOY14t7xeNXpDU0VWVqmmrUIvi8fN\n8/N5Z5PvK0o6k3ECvNW8EN+v4s2p52Qh+kLiwYeCbJaNlndOgJxvzHiALx6iKPCT\nG/WyK277d+7OUqDkVf0ydmnEh+7W7W3KJkQJtvuac9jhrNgkjslaHr39nEVv8SfE\nl2rpdAl4mv6fD0/QrVodVVw9OECr7XU3whukny3ke4ogTM8jkuYG\n-----END CERTIFICATE-----\n";

const API_KEY: &str = "0123456789abcdef0123456789abcdef";
const SERIAL: &str = "5AD141C1086A7945A1394A8AEAA9EB0619751859";

fn config(m: &Material) -> WechatConfig {
    WechatConfig {
        app_id: "wx8888888888888888".to_string(),
        mchid: "1900000001".to_string(),
        mch_key: API_KEY.to_string(),
        apiclient_key: m.key.clone(),
        apiclient_cert: m.cert.clone(),
        notify_url: "https://example.com/notify".to_string(),
        ..Default::default()
    }
}

fn partner_config(m: &Material) -> WechatConfig {
    WechatConfig {
        sp_appid: Some("wx1111111111111111".to_string()),
        sp_mchid: Some("1800000001".to_string()),
        ..config(&m)
    }
}

fn platform_record(m: &Material) -> CertificateRecord {
    CertificateRecord { serial: SERIAL.to_string(), pem: m.cert.clone(), fetched_at: 0 }
}

fn part<'a>(text: &'a str, name: &str) -> &'a str {
    let start = text.find(&format!("{}=\"", name)).unwrap() + name.len() + 2;
    let end = start + text[start..].find('"').unwrap();
    &text[start..end]
}

fn signed_headers(m: &Material, timestamp: &str, nonce: &str, body: &str, serial: &str) -> Vec<(String, String)> {
    let signature = sign(&vec![timestamp, nonce, body], &m.key).unwrap();
    vec![
        ("content-type".to_string(), "application/json".to_string()),
        ("wechatpay-nonce".to_string(), nonce.to_string()),
        ("Wechatpay-Signature".to_string(), signature),
        ("WECHATPAY-TIMESTAMP".to_string(), timestamp.to_string()),
        ("Wechatpay-Serial".to_string(), serial.to_string()),
    ]
}

#[test]
fn a_built_request_verifies_under_the_key_of_the_merchant() {
    let m = material();
    let payment = Payment::new(config(&m));
    let request = payment.build_request_builder("/v3/pay/x", "POST", "{\"a\":1}").unwrap();
    assert_eq!(request.method, "POST");
    assert_eq!(request.url, "https://api.mch.weixin.qq.com/v3/pay/x");
    assert_eq!(request.body.as_deref(), Some("{\"a\":1}"));
    let authorization = request.header("Authorization").unwrap();
    assert!(authorization.starts_with("WECHATPAY2-SHA256-RSA2048 mchid=\"1900000001\",nonce_str=\""));
    let nonce = part(authorization, "nonce_str");
    let timestamp = part(authorization, "timestamp");
    let signature = part(authorization, "signature");
    assert_eq!(nonce.len(), 32);
    assert_eq!(part(authorization, "serial_no"), SERIAL);
    assert!(timestamp.parse::<u64>().unwrap() > 1_700_000_000);
    let fields = vec!["POST", "/v3/pay/x", timestamp, nonce, "{\"a\":1}"];
    assert_eq!(verify(&fields, signature, &m.cert).unwrap(), true);
    assert_eq!(
        canonical_string(&fields),
        format!("POST\n/v3/pay/x\n{}\n{}\n{{\"a\":1}}\n", timestamp, nonce)
    );
    assert_eq!(verify(&vec!["POST", "/v3/pay/y", timestamp, nonce, "{\"a\":1}"], signature, &m.cert).unwrap(), false);
}

#[test]
fn a_request_is_built_exactly_from_what_is_given() {
    let m = material();
    let payment = Payment::new(config(&m));
    let request = payment
        .build_request_with("/v3/certificates", "GET", "", "1554208460", "593BEC0C930BF1AFEB40B4A08C8FB242")
        .unwrap();
    let signature = sign(
        &vec!["GET", "/v3/certificates", "1554208460", "593BEC0C930BF1AFEB40B4A08C8FB242", ""],
        &m.key,
    ).unwrap();
    assert_eq!(request.method, "GET");
    assert_eq!(request.url, "https://api.mch.weixin.qq.com/v3/certificates");
    assert_eq!(request.body, None);
    assert_eq!(
        request.headers,
        vec![
            ("Content-Type".to_string(), "application/json".to_string()),
            ("Accept".to_string(), "application/json".to_string()),
            ("User-Agent".to_string(), "Weapay rust sdk/0.1.0".to_string()),
            (
                "Authorization".to_string(),
                format!(
                    "WECHATPAY2-SHA256-RSA2048 mchid=\"1900000001\",nonce_str=\"593BEC0C930BF1AFEB40B4A08C8FB242\",timestamp=\"1554208460\",serial_no=\"{}\",signature=\"{}\"",
                    SERIAL, signature
                ),
            ),
        ]
    );
}

#[test]
fn a_service_provider_signs_in_its_own_name() {
    let m = material();
    let payment = Payment::new(partner_config(&m));
    let request = payment.build_request_with("/v3/pay/x", "POST", "{}", "1", "n").unwrap();
    assert!(request.header("Authorization").unwrap().contains("mchid=\"1800000001\""));
}

#[test]
fn unknown_methods_are_sent_as_get_but_signed_as_given() {
    let m = material();
    let payment = Payment::new(config(&m));
    let request = payment.build_request_with("/v3/pay/x", "PATCH", "{}", "1", "n").unwrap();
    assert_eq!(request.method, "GET");
    let signature = part(request.header("Authorization").unwrap(), "signature").to_string();
    assert_eq!(verify(&vec!["PATCH", "/v3/pay/x", "1", "n", "{}"], &signature, &m.cert).unwrap(), true);
    for method in ["PUT", "DELETE", "POST", "GET"] {
        assert_eq!(payment.build_request_with("/x", method, "", "1", "n").unwrap().method, method);
    }
}

#[test]
fn a_request_cannot_be_built_without_a_usable_key_or_certificate() {
    let m = material();
    let mut bad_key = config(&m);
    bad_key.apiclient_key = "no key".to_string();
    assert_eq!(Payment::new(bad_key).build_request_with("/x", "GET", "", "1", "n").unwrap_err().kind(), "KeyLoad");
    let mut bad_cert = config(&m);
    bad_cert.apiclient_cert = "no certificate".to_string();
    assert_eq!(Payment::new(bad_cert).build_request_with("/x", "GET", "", "1", "n").unwrap_err().kind(), "KeyLoad");
}

#[test]
fn the_authorization_header_is_written_field_by_field() {
    assert_eq!(
        authorization_string("m", "n", "t", "s", "g"),
        "WECHATPAY2-SHA256-RSA2048 mchid=\"m\",nonce_str=\"n\",timestamp=\"t\",serial_no=\"s\",signature=\"g\""
    );
}

#[test]
fn paths_are_shaped_by_the_configuration() {
    let m = material();
    let own = Payment::new(config(&m));
    assert!(!own.is_sp());
    assert_eq!(own.get_uri("/v3/pay/transactions/jsapi", false, false), "/v3/pay/transactions/jsapi");
    assert_eq!(
        own.get_uri("/v3/pay/transactions/id/42", true, true),
        "/v3/pay/transactions/id/42?mchid=1900000001"
    );
    assert_eq!(own.get_uri("/v3/bill?x=1", true, false), "/v3/bill?x=1&mchid=1900000001");
    let partner = Payment::new(partner_config(&m));
    assert!(partner.is_sp());
    assert_eq!(
        partner.get_uri("/v3/pay/transactions/jsapi", false, false),
        "/v3/pay/partner/transactions/jsapi"
    );
    assert_eq!(
        partner.get_uri("/v3/pay/transactions/id/42", true, true),
        "/v3/pay/partner/transactions/id/42?sp_mchid=1800000001?sub_mchid=1900000001"
    );
    assert_eq!(
        partner.get_uri("/v3/refund/domestic/refunds/7?a=b", true, false),
        "/v3/refund/domestic/refunds/7?a=b&sub_mchid=1900000001"
    );
    let half = Payment::new(WechatConfig { sp_mchid: Some("1800000001".to_string()), ..config(&m) });
    assert!(!half.is_sp());
    assert_eq!(half.get_uri("/v3/pay/x", true, true), "/v3/pay/x?mchid=1900000001");
}

#[test]
fn a_signed_response_is_read() {
    let m = material();
    let payment = Payment::new(config(&m));
    let body = "{\"prepay_id\":\"wx26112221580621e9b071c00d9e093b0000\"}";
    let headers = signed_headers(&m, "1721352091", "wXGCUJV30xenmtIaT9sGPjcty2jova4n", body, SERIAL);
    assert_eq!(payment.interpret_response(200, &headers, body, &platform_record(&m)).unwrap(), body);
    let empty = signed_headers(&m, "1721352091", "n", "", SERIAL);
    assert_eq!(payment.interpret_response(204, &empty, "", &platform_record(&m)).unwrap(), "");
}

#[test]
fn a_response_with_a_failed_status_gives_its_body_or_its_status() {
    let m = material();
    let payment = Payment::new(config(&m));
    let body = "{\"code\":\"PARAM_ERROR\"}";
    let headers = signed_headers(&m, "1", "n", body, SERIAL);
    let err = payment.interpret_response(400, &headers, body, &platform_record(&m)).unwrap_err();
    assert_eq!(err.kind(), "Status");
    assert_eq!(err.message(), body);
    let headers = signed_headers(&m, "1", "n", "", SERIAL);
    let err = payment.interpret_response(404, &headers, "", &platform_record(&m)).unwrap_err();
    assert_eq!(err.kind(), "Status");
    assert_eq!(err.message(), "404");
    let err = payment.interpret_response(201, &headers, "", &platform_record(&m)).unwrap_err();
    assert_eq!(err.message(), "201");
}

#[test]
fn a_response_that_does_not_verify_is_rejected_whatever_its_status() {
    let m = material();
    let payment = Payment::new(config(&m));
    let headers = signed_headers(&m, "1", "n", "body", SERIAL);
    for status in [200u16, 204, 500] {
        let err = payment.interpret_response(status, &headers, "other body", &platform_record(&m)).unwrap_err();
        assert_eq!(err.kind(), "SignatureMismatch");
    }
    let other = CertificateRecord { serial: SERIAL.to_string(), pem: SHA1_ROOT_PEM.to_string(), fetched_at: 0 };
    assert_eq!(payment.interpret_response(200, &headers, "body", &other).unwrap_err().kind(), "SignatureMismatch");
}

#[test]
fn a_response_must_name_the_serial_of_the_record() {
    let m = material();
    let payment = Payment::new(config(&m));
    let headers = signed_headers(&m, "1", "n", "body", "0123");
    assert_eq!(payment.interpret_response(200, &headers, "body", &platform_record(&m)).unwrap_err().kind(), "Verification");
    let mut lacking = signed_headers(&m, "1", "n", "body", SERIAL);
    lacking.remove(2);
    assert_eq!(payment.interpret_response(200, &lacking, "body", &platform_record(&m)).unwrap_err().kind(), "Verification");
    assert_eq!(payment.interpret_response(200, &vec![], "body", &platform_record(&m)).unwrap_err().kind(), "Verification");
}

#[test]
fn a_claim_is_checked_against_the_record() {
    let m = material();
    let signature = sign(&vec!["t", "n", "b"], &m.key).unwrap();
    let claim = |serial: &str, body: &str, signature: &str| VerificationClaim {
        timestamp: "t".to_string(),
        nonce: "n".to_string(),
        body: body.to_string(),
        signature: signature.to_string(),
        serial: serial.to_string(),
    };
    assert!(check_claim(&platform_record(&m), claim(SERIAL, "b", &signature)).is_ok());
    assert_eq!(check_claim(&platform_record(&m), claim(SERIAL, "c", &signature)).unwrap_err().kind(), "SignatureMismatch");
    assert_eq!(check_claim(&platform_record(&m), claim("FF", "b", &signature)).unwrap_err().kind(), "Verification");
    assert_eq!(check_claim(&platform_record(&m), claim(SERIAL, "b", "%")).unwrap_err().kind(), "Base64");
    assert_eq!(claim(SERIAL, "b", &signature).verify_under(&m.cert).unwrap(), true);
    assert_eq!(claim(SERIAL, "b", &signature).verify_under(SHA1_ROOT_PEM).unwrap(), false);
}

#[test]
fn a_claim_is_read_from_headers_of_any_letter_case() {
    let m = material();
    let headers = signed_headers(&m, "1721352091", "abc", "body", SERIAL);
    let claim = read_claim(&headers, "body", "Wechatpay-Serial", "Wechatpay-Timestamp", "Wechatpay-Nonce", "Wechatpay-Signature").unwrap();
    assert_eq!(claim.serial, SERIAL);
    assert_eq!(claim.timestamp, "1721352091");
    assert_eq!(claim.nonce, "abc");
    assert_eq!(claim.body, "body");
    assert_eq!(claim.signature, headers[2].1);
    assert_eq!(find_header(&headers, "WECHATPAY-NONCE"), Some("abc"));
    assert_eq!(find_header(&headers, "Wechatpay-Other"), None);
    for lacking in 1..5 {
        let mut fewer = headers.clone();
        fewer.remove(lacking);
        assert!(read_claim(&fewer, "body", "Wechatpay-Serial", "Wechatpay-Timestamp", "Wechatpay-Nonce", "Wechatpay-Signature").is_none());
    }
    let twice = vec![("X-A".to_string(), "first".to_string()), ("x-a".to_string(), "second".to_string())];
    assert_eq!(find_header(&twice, "x-A"), Some("first"));
}

fn envelope(payment: &Payment<WechatConfig>, plaintext: &str) -> (String, RespResource) {
    let ciphertext = payment.encrypt_content("SbmLlX0uxbQG", plaintext, "transaction").unwrap();
    let resource = RespResource {
        original_type: "transaction".to_string(),
        algorithm: "AEAD_AES_256_GCM".to_string(),
        ciphertext: ciphertext.clone(),
        associated_data: Some("transaction".to_string()),
        nonce: "SbmLlX0uxbQG".to_string(),
    };
    let body = format!(
        "{{\"id\":\"be3b9a56-ef5c-55f1-93c2-0cfbf8a08e07\",\"create_time\":\"2024-07-19T09:21:31+08:00\",\"resource_type\":\"encrypt-resource\",\"event_type\":\"TRANSACTION.SUCCESS\",\"summary\":\"ok\",\"resource\":{{\"original_type\":\"transaction\",\"algorithm\":\"AEAD_AES_256_GCM\",\"ciphertext\":\"{}\",\"associated_data\":\"transaction\",\"nonce\":\"SbmLlX0uxbQG\"}}}}",
        ciphertext
    );
    (body, resource)
}

#[test]
fn test_notify() {
    let m = material();
    let payment = Payment::new(config(&m));
    let nonce_str = "wXGCUJV30xenmtIaT9sGPjcty2jova4n";
    let timestamp = "1721352091";
    let serial = "5AD141C1086A7945A1394A8AEAA9EB0619751859";
    let (body, resource) = envelope(&payment, "{\"out_trade_no\":\"T20240407003\",\"trade_state\":\"SUCCESS\"}");
    let signature = sign(&vec![timestamp, nonce_str, &body], &m.key).unwrap();
    let result = payment.notify(nonce_str, timestamp, &body, &signature, serial, &platform_record(&m), Some(&resource));
    if result.is_err() {
        let error = result.err().unwrap();
        panic!("{}", error.describe());
    } else {
        let result = result.unwrap();
        println!("{:?}", result);
        assert!(result.contains("\"out_trade_no\":\"T20240407003\""));
    }
}

#[test]
fn a_notification_is_rejected_before_anything_is_decrypted() {
    let m = material();
    let payment = Payment::new(config(&m));
    let (body, resource) = envelope(&payment, "{\"out_trade_no\":\"T1\"}");
    let signature = sign(&vec!["1", "n", &body], &m.key).unwrap();
    let record = platform_record(&m);
    let changed = body.replace("TRANSACTION.SUCCESS", "REFUND.SUCCESS");
    assert_eq!(
        payment.notify("n", "1", &changed, &signature, SERIAL, &record, Some(&resource)).unwrap_err().kind(),
        "SignatureMismatch"
    );
    assert_eq!(
        payment.notify("n", "2", &body, &signature, SERIAL, &record, Some(&resource)).unwrap_err().kind(),
        "SignatureMismatch"
    );
    assert_eq!(
        payment.notify("n", "1", &body, &signature, "00", &record, Some(&resource)).unwrap_err().kind(),
        "Verification"
    );
    assert_eq!(
        payment.notify("n", "1", &body, &signature, SERIAL, &record, None).unwrap_err().kind(),
        "Serialization"
    );
    // a bad signature wins over an envelope that cannot be read
    assert_eq!(
        payment.notify("n", "2", &body, &signature, SERIAL, &record, None).unwrap_err().kind(),
        "SignatureMismatch"
    );
}

#[test]
fn a_notification_with_a_changed_resource_is_rejected() {
    let m = material();
    let payment = Payment::new(config(&m));
    let (body, mut resource) = envelope(&payment, "{\"out_trade_no\":\"T1\"}");
    let signature = sign(&vec!["1", "n", &body], &m.key).unwrap();
    resource.associated_data = None;
    assert_eq!(
        payment.notify("n", "1", &body, &signature, SERIAL, &platform_record(&m), Some(&resource)).unwrap_err().kind(),
        "AeadFailure"
    );
}

fn listed(payment: &Payment<WechatConfig>, serial: &str, pem: &str) -> RespCertItem {
    RespCertItem {
        serial_no: serial.to_string(),
        effective_time: None,
        expire_time: None,
        encrypt_certificate: CertData {
            algorithm: "AEAD_AES_256_GCM".to_string(),
            nonce: "61f9c719728a".to_string(),
            associated_data: "certificate".to_string(),
            ciphertext: payment.encrypt_content("61f9c719728a", pem, "certificate").unwrap(),
        },
    }
}

#[test]
fn a_listing_is_decrypted_and_answers_the_resolution() {
    let m = material();
    let payment = Payment::new(config(&m));
    let items = vec![listed(&payment, "AA", SHA1_ROOT_PEM), listed(&payment, SERIAL, &m.cert)];
    let fetched = payment.decrypt_certificates(&items).unwrap();
    assert_eq!(fetched.len(), 2);
    assert_eq!(fetched[0].serial, "AA");
    assert_eq!(fetched[0].pem, SHA1_ROOT_PEM);
    assert_eq!(fetched[1].serial, SERIAL);
    assert_eq!(fetched[1].pem, m.cert);
    let mut cache = CertificateCache::new();
    assert!(matches!(cache.resolve(SERIAL, 100), Resolution::Fetch));
    let record = cache.accept_fetched(SERIAL, &fetched, 100).unwrap();
    let body = "{}";
    let headers = signed_headers(&m, "1", "n", body, SERIAL);
    assert_eq!(payment.interpret_response(200, &headers, body, &record).unwrap(), body);
}

#[test]
fn a_listing_fails_as_a_whole() {
    let m = material();
    let payment = Payment::new(config(&m));
    assert_eq!(payment.decrypt_certificates(&vec![]).unwrap_err().kind(), "EmptyCertificateSet");
    let mut broken = listed(&payment, "BB", &m.cert);
    broken.encrypt_certificate.associated_data = "other".to_string();
    let items = vec![listed(&payment, "AA", SHA1_ROOT_PEM), broken, listed(&payment, "CC", &m.cert)];
    assert_eq!(payment.decrypt_certificates(&items).unwrap_err().kind(), "AeadFailure");
}

fn order() -> ReqOrderBody {
    ReqOrderBody {
        description: "ticket".to_string(),
        out_trade_no: "T20240407005".to_string(),
        amount: ReqAmountInfo { total: 1, currency: Some("CNY".to_string()) },
        ..Default::default()
    }
}

#[test]
fn an_order_is_prepared_in_the_name_of_the_merchant() {
    let m = material();
    let payment = Payment::new(config(&m));
    let op = payment.create_order(TradeType::JSAPI, order()).unwrap();
    assert_eq!((op.uri.as_str(), op.method.as_str()), ("/v3/pay/transactions/jsapi", "POST"));
    assert_eq!(op.body.appid.as_deref(), Some("wx8888888888888888"));
    assert_eq!(op.body.mchid.as_deref(), Some("1900000001"));
    assert_eq!(op.body.sp_appid, None);
    assert_eq!(op.body.sub_mchid, None);
    assert_eq!(op.body.notify_url.as_deref(), Some("https://example.com/notify"));
    assert_eq!(op.body.out_trade_no, "T20240407005");
    assert_eq!(op.body.amount.total, 1);
    assert_eq!(payment.create_order(TradeType::NATIVE, order()).unwrap().uri, "/v3/pay/transactions/native");
    assert_eq!(payment.create_order(TradeType::App, order()).unwrap().uri, "/v3/pay/transactions/app");
    assert_eq!(payment.create_order(TradeType::MWEB, order()).unwrap().uri, "/v3/pay/transactions/h5");
    assert_eq!(payment.create_order(TradeType::MICROPAY, order()).unwrap_err().kind(), "TradeType");
    assert_eq!(payment.create_order(TradeType::FACEPAY, order()).unwrap_err().kind(), "TradeType");
    let own = ReqOrderBody { notify_url: Some("https://own.example/n".to_string()), ..order() };
    assert_eq!(payment.create_order(TradeType::JSAPI, own).unwrap().body.notify_url.as_deref(), Some("https://own.example/n"));
}

#[test]
fn an_order_through_a_service_provider_names_both_merchants() {
    let m = material();
    let payment = Payment::new(partner_config(&m));
    let op = payment.create_order(TradeType::JSAPI, order()).unwrap();
    assert_eq!(op.uri, "/v3/pay/partner/transactions/jsapi");
    assert_eq!(op.body.sp_appid.as_deref(), Some("wx1111111111111111"));
    assert_eq!(op.body.sp_mchid.as_deref(), Some("1800000001"));
    assert_eq!(op.body.sub_appid.as_deref(), Some("wx8888888888888888"));
    assert_eq!(op.body.sub_mchid.as_deref(), Some("1900000001"));
    assert_eq!(op.body.appid, None);
    assert_eq!(op.body.mchid, None);
}

#[test]
fn a_placed_order_is_signed_for_the_way_of_payment() {
    let m = material();
    let payment = Payment::new(config(&m));
    let response = CreateOrderResponse { prepay_id: Some("wx201410272009395522657a690389285100".to_string()), ..Default::default() };
    match payment.order_result_with(TradeType::JSAPI, response.clone(), "1414561699", "5K8264ILTKCH16CQ2502SI8ZNMTM67VS").unwrap() {
        CreateOrderResult::JSAPI(package) => {
            assert_eq!(package.app_id, "wx8888888888888888");
            assert_eq!(package.time_stamp, "1414561699");
            assert_eq!(package.nonce_str, "5K8264ILTKCH16CQ2502SI8ZNMTM67VS");
            assert_eq!(package.package, "prepay_id=wx201410272009395522657a690389285100");
            assert_eq!(package.sign_type, "RSA");
            let fields = vec!["wx8888888888888888", "1414561699", "5K8264ILTKCH16CQ2502SI8ZNMTM67VS", "prepay_id=wx201410272009395522657a690389285100"];
            assert_eq!(verify(&fields, &package.pay_sign, &m.cert).unwrap(), true);
        }
        _ => panic!("a payment from a page needs its package"),
    }
    match payment.order_result_with(TradeType::App, response.clone(), "1", "n").unwrap() {
        CreateOrderResult::APP(package) => {
            assert_eq!(package.partner_id, "1900000001");
            assert_eq!(package.prepay_id, "wx201410272009395522657a690389285100");
            assert_eq!(package.package_value, "Sign=WXPay");
            let fields = vec!["wx8888888888888888", "1", "n", "wx201410272009395522657a690389285100"];
            assert_eq!(verify(&fields, &package.sign, &m.cert).unwrap(), true);
        }
        _ => panic!("a payment from an application needs its package"),
    }
    let native = CreateOrderResponse { code_url: Some("weixin://wxpay/bizpayurl?pr=1".to_string()), ..Default::default() };
    match payment.order_result_with(TradeType::NATIVE, native.clone(), "1", "n").unwrap() {
        CreateOrderResult::Default(kept) => assert_eq!(kept.code_url.as_deref(), Some("weixin://wxpay/bizpayurl?pr=1")),
        _ => panic!("the answer is kept as it is"),
    }
    assert_eq!(payment.order_result_with(TradeType::JSAPI, native.clone(), "1", "n").unwrap_err().kind(), "Serialization");
    assert_eq!(payment.order_result_with(TradeType::App, native, "1", "n").unwrap_err().kind(), "Serialization");
    match payment.order_result(TradeType::JSAPI, response).unwrap() {
        CreateOrderResult::JSAPI(package) => {
            assert_eq!(package.nonce_str.len(), 32);
            let fields = vec![package.app_id.as_str(), package.time_stamp.as_str(), package.nonce_str.as_str(), package.package.as_str()];
            assert_eq!(verify(&fields, &package.pay_sign, &m.cert).unwrap(), true);
        }
        _ => panic!("a payment from a page needs its package"),
    }
}

#[test]
fn queries_closing_and_listing_are_prepared() {
    let m = material();
    let own = Payment::new(config(&m));
    let partner = Payment::new(partner_config(&m));
    let op = own.query_order("T20240407001");
    assert_eq!((op.uri.as_str(), op.method.as_str()), ("/v3/pay/transactions/out-trade-no/T20240407001?mchid=1900000001", "GET"));
    let op = own.query_order_by_transaction_id("4200002321202407011113597346");
    assert_eq!(op.uri, "/v3/pay/transactions/id/4200002321202407011113597346?mchid=1900000001");
    let op = own.close_order("2407020015");
    assert_eq!((op.uri.as_str(), op.method.as_str()), ("/v3/pay/transactions/out-trade-no/2407020015/close", "POST"));
    assert_eq!(op.body, "{\"mchid\":\"1900000001\"}");
    let op = partner.close_order("2407020015");
    assert_eq!(op.uri, "/v3/pay/partner/transactions/out-trade-no/2407020015/close");
    assert_eq!(op.body, "{\"sp_mchid\":\"1800000001\",\"sub_mchid\":\"1900000001\"}");
    let op = own.download_cert();
    assert_eq!((op.uri.as_str(), op.method.as_str()), ("/v3/certificates", "GET"));
    let op = own.query_refund("RT20240407003");
    assert_eq!((op.uri.as_str(), op.method.as_str()), ("/v3/refund/domestic/refunds/RT20240407003?mchid=1900000001", "GET"));
    assert_eq!(partner.query_refund("RT1").uri, "/v3/refund/domestic/refunds/RT1?sub_mchid=1900000001");
}

#[test]
fn a_refund_is_prepared() {
    let m = material();
    let data = ReqRefundOrder {
        out_trade_no: Some("T20240407003".to_string()),
        out_refund_no: "RT20240407003".to_string(),
        amount: ReqRefundAmountInfo { refund: 1, total: 1, currency: "CNY".to_string(), ..Default::default() },
        ..Default::default()
    };
    let op = Payment::new(config(&m)).refund(data.clone());
    assert_eq!((op.uri.as_str(), op.method.as_str()), ("/v3/refund/domestic/refunds", "POST"));
    assert_eq!(op.body.sub_mchid, None);
    assert_eq!(op.body.notify_url.as_deref(), Some("https://example.com/notify"));
    assert_eq!(op.body.out_refund_no, "RT20240407003");
    assert_eq!(op.body.amount.refund, 1);
    let op = Payment::new(partner_config(&m)).refund(data);
    assert_eq!(op.body.sub_mchid.as_deref(), Some("1900000001"));
}

#[test]
fn bills_are_asked_for_with_what_was_chosen() {
    let m = material();
    let own = Payment::new(config(&m));
    let partner = Payment::new(partner_config(&m));
    let op = own.trade_bill("2024-07-01".to_string(), Some("ALL".to_string()), None, false);
    assert_eq!((op.uri.as_str(), op.method.as_str()), ("/v3/bill/tradebill?bill_date=2024-07-01&bill_type=ALL&tar_type=GZIP", "GET"));
    assert_eq!(own.trade_bill("2024-07-01".to_string(), None, Some("ZIP".to_string()), true).uri, "/v3/bill/tradebill?bill_date=2024-07-01&bill_type=ALL&tar_type=ZIP");
    assert_eq!(partner.trade_bill("2024-07-01".to_string(), Some("REFUND".to_string()), None, true).uri, "/v3/bill/tradebill?bill_date=2024-07-01&bill_type=REFUND&tar_type=GZIP&sub_mchid=1900000001");
    assert_eq!(partner.trade_bill("2024-07-01".to_string(), None, None, false).uri, "/v3/bill/tradebill?bill_date=2024-07-01&bill_type=ALL&tar_type=GZIP");
    let op = own.fund_bill("2024-07-01".to_string(), Some("BASIC".to_string()), None);
    assert_eq!((op.uri.as_str(), op.method.as_str()), ("/v3/bill/fundflowbill?bill_date=2024-07-01&account_type=BASIC&tar_type=GZIP", "GET"));
    assert_eq!(own.fund_bill("2024-07-01".to_string(), None, None).uri, "/v3/bill/fundflowbill?bill_date=2024-07-01&account_type=BASIC&tar_type=GZIP");
    let op = own.download("https://api.mch.weixin.qq.com/v3/billdownload/file?token=8c-06HzWlqxxIXry&tartype=gzip");
    assert_eq!((op.uri.as_str(), op.method.as_str()), ("/v3/billdownload/file?token=8c-06HzWlqxxIXry&tartype=gzip", "GET"));
    assert!(own.check_download(200, "").is_ok());
    assert!(own.check_download(206, "").is_ok());
    let err = own.check_download(300, "moved").unwrap_err();
    assert_eq!((err.kind(), err.message()), ("Status", "moved"));
    assert!(own.check_download(199, "").is_err());
}

#[test]
fn the_answer_to_the_listing_is_read_without_verification() {
    let m = material();
    let payment = Payment::new(config(&m));
    let items = vec![listed(&payment, SERIAL, &m.cert)];
    let fetched = payment.interpret_certificates(200, "{}", Some(&items)).unwrap();
    assert_eq!(fetched[0].serial, SERIAL);
    assert_eq!(fetched[0].pem, m.cert);
    assert_eq!(payment.interpret_certificates(200, "x", None).unwrap_err().kind(), "Serialization");
    assert_eq!(payment.interpret_certificates(200, "{}", Some(&vec![])).unwrap_err().kind(), "EmptyCertificateSet");
    let err = payment.interpret_certificates(401, "denied", Some(&items)).unwrap_err();
    assert_eq!((err.kind(), err.message()), ("Status", "denied"));
    let err = payment.interpret_certificates(500, "", None).unwrap_err();
    assert_eq!((err.kind(), err.message()), ("Status", "500"));
}
