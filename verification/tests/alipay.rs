use openssl::asn1::Asn1Time;
use openssl::bn::BigNum;
use openssl::hash::MessageDigest;
use openssl::pkey::PKey;
use openssl::rsa::Rsa;
use openssl::x509::{X509Builder, X509NameBuilder};
use weapay::alipay::bill::BillTrait;
use weapay::alipay::common::{auth_string, authorization_string, BaseTrait};
use weapay::alipay::dict::bill::ReqBillQuery;
use weapay::alipay::dict::notify::NotifyOrderBody;
use weapay::alipay::dict::order::{ReqCancelOrderBody, ReqCloseOrderBody, ReqOrderBody};
use weapay::alipay::dict::refund::{ReqRefundOrder, ReqRefundQuery};
use weapay::alipay::refund::RefundTrait;
use weapay::alipay::params::{collect_params, put_pair, query_string, text_before};
use weapay::certificate::{get_cert_sn, get_root_cert_sn};
use weapay::signature::{sign, verify};
use weapay::{AlipayConfig, Payment};

/// Key material that is made anew for each test: a private key in its PEM
/// and DER forms, its public key, and a certificate of its own making.
struct Material {
    key: String,
    key_der: String,
    public_der: String,
    cert: String,
}

fn material() -> Material {
    let rsa = Rsa::generate(2048).unwrap();
    let key_der = openssl::base64::encode_block(&rsa.private_key_to_der().unwrap());
    let public_der = openssl::base64::encode_block(&rsa.public_key_to_der().unwrap());
    let pkey = PKey::from_rsa(rsa).unwrap();
    let key = String::from_utf8(pkey.private_key_to_pem_pkcs8().unwrap()).unwrap();
    let mut name = X509NameBuilder::new().unwrap();
    name.append_entry_by_text("C", "CN").unwrap();
    name.append_entry_by_text("O", "Example Pay").unwrap();
    name.append_entry_by_text("OU", "Merchants").unwrap();
    name.append_entry_by_text("CN", "Example Merchant CA").unwrap();
    let name = name.build();
    let serial = BigNum::from_hex_str("5AD141C1086A7945A1394A8AEAA9EB0619751859").unwrap();
    let mut builder = X509Builder::new().unwrap();
    builder.set_version(2).unwrap();
    builder.set_serial_number(&serial.to_asn1_integer().unwrap()).unwrap();
    builder.set_subject_name(&name).unwrap();
    builder.set_issuer_name(&name).unwrap();
    builder.set_pubkey(&pkey).unwrap();
    builder.set_not_before(&Asn1Time::days_from_now(0).unwrap()).unwrap();
    builder.set_not_after(&Asn1Time::days_from_now(3650).unwrap()).unwrap();
    builder.sign(&pkey, MessageDigest::sha256()).unwrap();
    let cert = String::from_utf8(builder.build().to_pem().unwrap()).unwrap();
    Material { key, key_der, public_der, cert }
}

const SHA1_ROOT_PEM: &str = "-----BEGIN CERTIFICATE-----\nMIIDUzCCAjugAwIBAgIIESIQ9H3pgRUwDQYJKoZIhvcNAQEFBQAwPjELMAkGA1UE\nBhMCQ04xFTATBgNVBAoMDEV4YW1wbGUgUm9vdDEYMBYGA1UEAwwPRXhhbXBsZSBS\nb290IFIxMCAXDTI2MTAyODIxNTAxMVoYDzIxMjYxMDA0MjE1MDExWjA+MQswCQYD\nVQQGEwJDTjEVMBMGA1UECgwMRXhhbXBsZSBSb290MRgwFgYDVQQDDA9FeGFtcGxl\nIFJvb3QgUjEwggEiMA0GCSqGSIb3DQEBAQUAA4IBDwAwggEKAoIBAQCtFKuimk3c\n94v4qHSGZAbsz6WNLIbqj4Elvt/DuwH3hRKKEPaheWugzbb1LlSHvl0qn335eVz0\n+Te6W8u/t3cA5qL/mWEg1wAY8NiqAR7QFjzJM/00hhyozQ4iUIDCInf3Kc587Y78\nke+lBvUdnxzblnra8A2iav8iVsuH1Eu8z8MvQ9ee0XDtYjmpB1TkCh7WHwVuNLEP\nxtGwZ/Nki+yu4r+5FcewNtM5+lGJmx58x88Kcrv6AI0Xiw0zsuuEM71rVxe5X9s+\ndx+XZyGmShN8QjDiwjhAhJyrnUgjYBPGSjSpcFRbRPG/RBZGmwl9Ccip7PwIELBU\nFQ/OIKYn11JlAgMBAAGjUzBRMB0GA1UdDgQWBBRoKJTvRTJlkOuroNVfpIHeXJil\nSzAfBgNVHSMEGDAWgBRoKJTvRTJlkOuroNVfpIHeXJilSzAPBgNVHRMBAf8EBTAD\nAQH/MA0GCSqGSIb3DQEBBQUAA4IBAQA/eWeFMSIk7P+B485MOQVkMgLW4cW8vPQi\nuyq6WdhETtZ4Md5xmU49gI9B+uRfR5Y9rHVnAEszfHy5K7jajEt0fPdG2ZT6Eyda\nWJrmOacg7f5ofLeWwscy7NshTtcnyqHiTkakOY14t7xeNXpDU0VWVqmmrUIvi8fN\n8/N5Z5PvK0o6k3ECvNW8EN+v4s2p52Qh+kLiwYeCbJaNlndOgJxvzHiALx6iKPCT\nG/WyK277d+7OUqDkVf0ydmnEh+7W7W3KJkQJtvuac9jhrNgkjslaHr39nEVv8SfE\nl2rpdAl4mv6fD0/QrVodVVw9OECr7XU3whukny3ke4ogTM8jkuYG\n-----END CERTIFICATE-----\n";

fn config(m: &Material) -> AlipayConfig {
    AlipayConfig {
        app_id: "2021003168621630".to_string(),
        app_private_key: m.key.clone(),
        alipay_public_cert: m.cert.clone(),
        ..Default::default()
    }
}

fn cert_config(m: &Material) -> AlipayConfig {
    AlipayConfig {
        app_public_cert: Some(m.cert.clone()),
        alipay_root_cert: Some(format!("{}{}", SHA1_ROOT_PEM, m.cert)),
        ..config(&m)
    }
}

fn body_key() -> String {
    openssl::base64::encode_block(b"1234567890123456")
}

fn pair(name: &str, value: &str) -> (String, String) {
    (name.to_string(), value.to_string())
}

fn escape(text: &str) -> String {
    let mut out = String::new();
    for b in text.bytes() {
        if b.is_ascii_alphanumeric() || b == b'-' || b == b'_' || b == b'.' {
            out.push(b as char);
        } else {
            out.push_str(&format!("%{:02X}", b));
        }
    }
    out
}

fn query_of(pairs: &[(&str, &str)]) -> String {
    pairs.iter().map(|(name, value)| format!("{}={}", escape(name), escape(value))).collect::<Vec<String>>().join("&")
}

#[test]
fn the_path_of_an_operation_is_its_name_with_slashes() {
    let m = material();
    let payment = Payment::new(config(&m));
    assert_eq!(payment.get_uri("alipay.trade.query"), "/v3/alipay/trade/query");
    assert_eq!(payment.get_uri("alipay.trade.fastpay.refund.query"), "/v3/alipay/trade/fastpay/refund/query");
    assert_eq!(payment.get_uri(""), "/v3/");
    assert_eq!(payment.get_uri("plain"), "/v3/plain");
}

#[test]
fn the_identifying_text_names_the_certificate_only_in_certificate_mode() {
    assert_eq!(auth_string("app", None, "n", "1"), "app_id=app,nonce=n,timestamp=1");
    assert_eq!(
        auth_string("app", Some("sn"), "n", "1"),
        "app_id=app,app_cert_sn=sn,nonce=n,timestamp=1"
    );
}

#[test]
fn the_authorization_header_joins_scheme_identifying_text_and_signature() {
    assert_eq!(authorization_string("app_id=a,nonce=n,timestamp=1", "c2ln"), "ALIPAY-SHA256withRSA app_id=a,nonce=n,timestamp=1,sign=c2ln");
}

#[test]
fn a_plain_request_is_built_exactly_from_what_is_given() {
    let m = material();
    let payment = Payment::new(config(&m));
    let request = payment
        .build_request_with("/v3/alipay/trade/query", "POST", "{\"a\":1}", "1721352091000", "nonce", "request")
        .unwrap();
    let auth = "app_id=2021003168621630,nonce=nonce,timestamp=1721352091000";
    let signature = sign(&vec![auth, "POST", "/v3/alipay/trade/query", "{\"a\":1}"], &m.key).unwrap();
    assert_eq!(request.method, "POST");
    assert_eq!(request.url, "https://openapi.alipay.com/v3/alipay/trade/query");
    assert_eq!(request.body.as_deref(), Some("{\"a\":1}"));
    assert_eq!(
        request.headers,
        vec![
            pair("Content-Type", "application/json"),
            pair("Accept", "application/json"),
            pair("User-Agent", "Weapay rust sdk/0.1.0"),
            pair("alipay-request-id", "request"),
            pair("Authorization", &format!("ALIPAY-SHA256withRSA {},sign={}", auth, signature)),
        ]
    );
}

#[test]
fn a_built_request_verifies_under_the_key_of_the_application() {
    let m = material();
    let payment = Payment::new(config(&m));
    let request = payment.build_request_builder("/v3/pay/x", "POST", "{\"a\":1}").unwrap();
    let authorization = request.header("Authorization").unwrap();
    let rest = authorization.strip_prefix("ALIPAY-SHA256withRSA ").unwrap();
    let (auth, signature) = rest.split_once(",sign=").unwrap();
    assert!(auth.starts_with("app_id=2021003168621630,nonce="));
    assert_eq!(verify(&vec![auth, "POST", "/v3/pay/x", "{\"a\":1}"], signature, &m.cert).unwrap(), true);
    assert_eq!(verify(&vec![auth, "POST", "/v3/pay/x", "{\"a\":2}"], signature, &m.cert).unwrap(), false);
    assert_eq!(request.header("alipay-request-id").unwrap().len(), 32);
}

#[test]
fn the_sandbox_has_its_own_address() {
    let m = material();
    let payment = Payment::new(AlipayConfig { is_sandbox: Some(true), ..config(&m) });
    let request = payment.build_request_with("/v3/x", "GET", "", "1", "n", "r").unwrap();
    assert_eq!(request.url, "https://openapi-sandbox.dl.alipaydev.com/v3/x");
    assert_eq!(request.body, None);
    let payment = Payment::new(AlipayConfig { is_sandbox: Some(false), ..config(&m) });
    assert_eq!(payment.build_request_with("/v3/x", "GET", "", "1", "n", "r").unwrap().url, "https://openapi.alipay.com/v3/x");
}

#[test]
fn in_certificate_mode_a_request_names_both_certificate_identities() {
    let m = material();
    let payment = Payment::new(cert_config(&m));
    let request = payment.build_request_with("/v3/x", "POST", "{}", "1", "n", "r").unwrap();
    let sn = get_cert_sn(&m.cert).unwrap();
    let auth = format!("app_id=2021003168621630,app_cert_sn={},nonce=n,timestamp=1", sn);
    assert!(request.header("Authorization").unwrap().starts_with(&format!("ALIPAY-SHA256withRSA {},sign=", auth)));
    assert_eq!(
        request.header("alipay-root-cert-sn").unwrap(),
        "4ee02de767485a464a07dc11e9cdb25f_61bd7cd37a5aab5b04652428100546bf"
    );
    assert_eq!(request.header("alipay-root-cert-sn").unwrap(), get_root_cert_sn(&format!("{}{}", SHA1_ROOT_PEM, m.cert)));
    let names: Vec<&str> = request.headers.iter().map(|h| h.0.as_str()).collect();
    assert_eq!(names, vec!["Content-Type", "alipay-root-cert-sn", "Accept", "User-Agent", "alipay-request-id", "Authorization"]);
    let lacking = Payment::new(AlipayConfig { app_public_cert: None, ..cert_config(&m) });
    assert_eq!(lacking.build_request_with("/v3/x", "POST", "{}", "1", "n", "r").unwrap_err().kind(), "KeyLoad");
}

#[test]
fn with_a_body_key_the_body_is_encrypted_before_it_is_signed() {
    let m = material();
    let payment = Payment::new(AlipayConfig { mch_key: Some(body_key()), ..config(&m) });
    let request = payment.build_request_with("/v3/x", "POST", "{\"a\":1}", "1", "n", "r").unwrap();
    let sent = request.body.clone().unwrap();
    assert_ne!(sent, "{\"a\":1}");
    assert_eq!(payment.decrypt(&sent).unwrap(), "{\"a\":1}");
    let authorization = request.header("Authorization").unwrap();
    let (auth, signature) = authorization.strip_prefix("ALIPAY-SHA256withRSA ").unwrap().split_once(",sign=").unwrap();
    assert_eq!(verify(&vec![auth, "POST", "/v3/x", &sent], signature, &m.cert).unwrap(), true);
    assert_eq!(verify(&vec![auth, "POST", "/v3/x", "{\"a\":1}"], signature, &m.cert).unwrap(), false);
    assert_eq!(request.header("alipay-encrypt-type"), Some("AES"));
    assert_eq!(request.header("Content-Type"), Some("text/plain"));
}

#[test]
fn a_signature_is_verified_under_the_key_of_the_provider() {
    let m = material();
    let payment = Payment::new(config(&m));
    let signature = sign(&vec!["t", "n", "b"], &m.key).unwrap();
    assert_eq!(payment.verify_signature(vec!["t", "n", "b"], &signature).unwrap(), true);
    assert_eq!(payment.verify_signature(vec!["t", "n", "c"], &signature).unwrap(), false);
    let bare = Payment::new(AlipayConfig { alipay_public_cert: m.public_der.clone(), ..config(&m) });
    assert_eq!(bare.verify_signature(vec!["t", "n", "b"], &signature).unwrap(), true);
}

fn response_headers(m: &Material, sn: &str, body: &str) -> Vec<(String, String)> {
    vec![
        pair("Alipay-Timestamp", "1721352091000"),
        pair("alipay-nonce", "abc"),
        pair("ALIPAY-SN", sn),
        pair("alipay-signature", &sign(&vec!["1721352091000", "abc", body], &m.key).unwrap()),
    ]
}

#[test]
fn a_response_is_read() {
    let m = material();
    let payment = Payment::new(config(&m));
    assert_eq!(payment.interpret_response(200, &vec![], "{\"x\":1}").unwrap(), "{\"x\":1}");
    assert_eq!(payment.interpret_response(204, &vec![], "").unwrap(), "");
    let err = payment.interpret_response(400, &vec![], "{\"code\":\"x\"}").unwrap_err();
    assert_eq!(err.kind(), "Status");
    assert_eq!(err.message(), "{\"code\":\"x\"}");
    let err = payment.interpret_response(502, &vec![], "").unwrap_err();
    assert_eq!(err.kind(), "Status");
    assert_eq!(err.message(), "502");
}

#[test]
fn outside_certificate_mode_a_named_serial_is_not_checked() {
    let m = material();
    let payment = Payment::new(config(&m));
    let headers = vec![pair("alipay-sn", "anything")];
    assert_eq!(payment.interpret_response(200, &headers, "{}").unwrap(), "{}");
}

#[test]
fn in_certificate_mode_a_response_that_names_a_serial_is_verified() {
    let m = material();
    let payment = Payment::new(cert_config(&m));
    let sn = get_cert_sn(&m.cert).unwrap();
    let headers = response_headers(&m, &sn, "{}");
    assert_eq!(payment.interpret_response(200, &headers, "{}").unwrap(), "{}");
    assert_eq!(payment.interpret_response(200, &headers, "{ }").unwrap_err().kind(), "SignatureMismatch");
    assert_eq!(payment.interpret_response(500, &headers, "{ }").unwrap_err().kind(), "SignatureMismatch");
    let other = response_headers(&m, "00000000000000000000000000000000", "{}");
    assert_eq!(payment.interpret_response(200, &other, "{}").unwrap_err().kind(), "Verification");
    let lacking: Vec<(String, String)> = headers.iter().filter(|h| h.0 != "alipay-nonce").cloned().collect();
    assert_eq!(payment.interpret_response(200, &lacking, "{}").unwrap_err().kind(), "Verification");
    assert_eq!(payment.interpret_response(200, &vec![], "{}").unwrap(), "{}");
}

#[test]
fn with_a_body_key_the_body_of_a_response_is_decrypted() {
    let m = material();
    let payment = Payment::new(AlipayConfig { mch_key: Some(body_key()), ..config(&m) });
    let sent = payment.encrypt("{\"trade_no\":\"1\"}").unwrap();
    assert_eq!(payment.interpret_response(200, &vec![], &sent).unwrap(), "{\"trade_no\":\"1\"}");
    assert_eq!(payment.interpret_response(200, &vec![], "{}").unwrap_err().kind(), "Base64");
    assert_eq!(payment.interpret_response(403, &vec![], "denied").unwrap_err().message(), "denied");
}

#[test]
fn names_are_ordered_like_in_a_dictionary() {
    assert!(text_before("a", "b"));
    assert!(!text_before("b", "a"));
    assert!(!text_before("a", "a"));
    assert!(text_before("", "a"));
    assert!(!text_before("", ""));
    assert!(text_before("app", "app_id"));
    assert!(text_before("Z", "a"));
    assert!(text_before("a", "\u{e9}"));
    assert!(text_before("buyer_id", "buyer_logon_id"));
    for (a, b) in [("x", "y"), ("ab", "b"), ("\u{4e2d}", "\u{4e2e}"), ("z", "\u{1f600}"), ("\u{ffff}", "\u{10000}")] {
        assert_eq!(text_before(a, b), a < b);
        assert_eq!(text_before(b, a), b < a);
    }
}

#[test]
fn pairs_are_put_in_the_place_of_their_name() {
    let mut sorted: Vec<(String, String)> = Vec::new();
    for (name, value) in [("m", "1"), ("a", "2"), ("z", "3"), ("m", "4"), ("b", "5")] {
        put_pair(&mut sorted, name.to_string(), value.to_string());
    }
    assert_eq!(sorted, vec![pair("a", "2"), pair("b", "5"), pair("m", "4"), pair("z", "3")]);
}

#[test]
fn the_signed_parameters_are_sorted_and_the_signature_is_set_aside() {
    let pairs = vec![
        pair("total_amount", "0.99"),
        pair("sign", "first"),
        pair("charset", "UTF-8"),
        pair("sign_type", "RSA2"),
        pair("app_id", "9021000135675809"),
        pair("sign", "second"),
        pair("charset", "utf-8"),
    ];
    let (params, signature) = collect_params(&pairs);
    assert_eq!(signature, "second");
    assert_eq!(params, vec![pair("app_id", "9021000135675809"), pair("charset", "utf-8"), pair("total_amount", "0.99")]);
    assert_eq!(query_string(&params), "app_id=9021000135675809&charset=utf-8&total_amount=0.99");
    let (none, missing) = collect_params(&vec![]);
    assert!(none.is_empty());
    assert_eq!(missing, "");
    assert_eq!(query_string(&none), "");
    assert_eq!(query_string(&vec![pair("a", "b&")]), "a=b&");
    assert_eq!(query_string(&vec![pair("a", "")]), "a=");
}

const PARAMS: [(&str, &str); 13] = [
    ("gmt_create", "2024-07-24 10:43:59"),
    ("charset", "UTF-8"),
    ("subject", "\u{65c5}\u{884c}\u{5361}"),
    ("buyer_id", "2088722032795825"),
    ("notify_id", "2024072401222104407195820503475973"),
    ("notify_type", "trade_status_sync"),
    ("trade_status", "TRADE_SUCCESS"),
    ("receipt_amount", "0.99"),
    ("app_id", "9021000135675809"),
    ("notify_time", "2024-07-24 10:44:07"),
    ("out_trade_no", "T20240407007"),
    ("total_amount", "0.99"),
    ("trade_no", "2024072422001495820503421248"),
];

const SIGNED_TEXT: &str = "app_id=9021000135675809&buyer_id=2088722032795825&buyer_logon_id=uyskdk2812@sandbox.com&charset=UTF-8&gmt_create=2024-07-24 10:43:59&notify_id=2024072401222104407195820503475973&notify_time=2024-07-24 10:44:07&notify_type=trade_status_sync&out_trade_no=T20240407007&receipt_amount=0.99&subject=\u{65c5}\u{884c}\u{5361}&total_amount=0.99&trade_no=2024072422001495820503421248&trade_status=TRADE_SUCCESS";

fn signed_query(m: &Material, order: &[usize]) -> String {
    let signature = sign(&vec![SIGNED_TEXT], &m.key).unwrap();
    let mut pairs: Vec<(&str, &str)> = order.iter().map(|i| PARAMS[*i]).collect();
    pairs.insert(2, ("sign", &signature));
    pairs.insert(4, ("sign_type", "RSA2"));
    pairs.insert(7, ("buyer_logon_id", "uyskdk2812@sandbox.com"));
    query_of(&pairs)
}

const STRAIGHT: [usize; 13] = [0, 1, 2, 3, 4, 5, 6, 7, 8, 9, 10, 11, 12];

#[test]
fn a_notification_verifies_over_its_sorted_parameters() {
    let m = material();
    let payment = Payment::new(config(&m));
    let body = payment.notify(&signed_query(&m, &STRAIGHT)).unwrap();
    assert_eq!(body.out_trade_no, "T20240407007");
    assert_eq!(body.gmt_create.as_deref(), Some("2024-07-24 10:43:59"));
    assert_eq!(body.subject.as_deref(), Some("\u{65c5}\u{884c}\u{5361}"));
    assert_eq!(body.buyer_logon_id, "uyskdk2812@sandbox.com");
    assert_eq!(body.trade_status, "TRADE_SUCCESS");
    assert_eq!(body.sign, None);
    assert_eq!(body.sign_type, None);
    assert_eq!(body.gmt_refund, None);
}

#[test]
fn the_order_of_the_parameters_does_not_change_the_outcome() {
    let m = material();
    let payment = Payment::new(config(&m));
    let straight = payment.notify(&signed_query(&m, &STRAIGHT)).unwrap();
    for order in [
        [12, 11, 10, 9, 8, 7, 6, 5, 4, 3, 2, 1, 0],
        [2, 0, 5, 1, 4, 3, 12, 6, 11, 7, 10, 8, 9],
        [1, 0, 3, 2, 5, 4, 7, 6, 9, 8, 11, 10, 12],
    ] {
        let shuffled = payment.notify(&signed_query(&m, &order)).unwrap();
        assert_eq!(format!("{:?}", shuffled), format!("{:?}", straight));
    }
}

#[test]
fn a_changed_notification_is_rejected() {
    let m = material();
    let payment = Payment::new(config(&m));
    let query = signed_query(&m, &STRAIGHT);
    let changed = query.replace("T20240407007", "T20240407008");
    assert_eq!(payment.notify(&changed).unwrap_err().kind(), "SignatureMismatch");
    let added = format!("{}&extra=1", query);
    assert_eq!(payment.notify(&added).unwrap_err().kind(), "SignatureMismatch");
    assert_eq!(payment.notify("a=1&b=2").unwrap_err().kind(), "SignatureMismatch");
    assert_eq!(payment.notify("a=1&sign=%25%25").unwrap_err().kind(), "Base64");
    let other = Payment::new(AlipayConfig { alipay_public_cert: SHA1_ROOT_PEM.to_string(), ..config(&m) });
    assert_eq!(other.notify(&query).unwrap_err().kind(), "SignatureMismatch");
}

#[test]
fn a_notification_that_lacks_a_parameter_cannot_be_read() {
    let m = material();
    let payment = Payment::new(config(&m));
    let signature = sign(&vec!["a=1&b=2"], &m.key).unwrap();
    let query = query_of(&[("b", "2"), ("sign", &signature), ("a", "1")]);
    let err = payment.notify(&query).unwrap_err();
    assert_eq!(err.kind(), "Serialization");
    assert_eq!(err.message(), "missing field notify_time");
}

#[test]
fn a_notification_is_read_from_its_parameters() {
    let mut params: Vec<(String, String)> = PARAMS.iter().map(|p| pair(p.0, p.1)).collect();
    params.push(pair("buyer_logon_id", "x@y"));
    params.push(pair("unknown", "ignored"));
    params.push(pair("subject", "second"));
    let body = NotifyOrderBody::from_params(&params).unwrap();
    assert_eq!(body.notify_time, "2024-07-24 10:44:07");
    assert_eq!(body.notify_type, "trade_status_sync");
    assert_eq!(body.notify_id, "2024072401222104407195820503475973");
    assert_eq!(body.trade_no, "2024072422001495820503421248");
    assert_eq!(body.app_id, "9021000135675809");
    assert_eq!(body.buyer_id, "2088722032795825");
    assert_eq!(body.total_amount, "0.99");
    assert_eq!(body.receipt_amount, "0.99");
    assert_eq!(body.charset.as_deref(), Some("UTF-8"));
    assert_eq!(body.subject.as_deref(), Some("\u{65c5}\u{884c}\u{5361}"));
    assert_eq!(body.version, None);
    assert_eq!(body.passback_params, None);
    for lacking in ["notify_time", "trade_no", "receipt_amount", "buyer_logon_id"] {
        let fewer: Vec<(String, String)> = params.iter().filter(|p| p.0 != lacking).cloned().collect();
        let err = NotifyOrderBody::from_params(&fewer).unwrap_err();
        assert_eq!(err.kind(), "Serialization");
        assert_eq!(err.message(), format!("missing field {}", lacking));
    }
}

#[test]
fn parameters_that_were_read_already_are_checked_alike() {
    let m = material();
    let payment = Payment::new(config(&m));
    let signature = sign(&vec!["a=1&b=x y"], &m.key).unwrap();
    let pairs = vec![pair("b", "x y"), pair("sign_type", "RSA2"), pair("sign", &signature), pair("a", "1")];
    assert_eq!(payment.verify_notification(&pairs).unwrap(), vec![pair("a", "1"), pair("b", "x y")]);
    let pairs = vec![pair("b", "x y"), pair("a", "2"), pair("sign", &signature)];
    assert_eq!(payment.verify_notification(&pairs).unwrap_err().kind(), "SignatureMismatch");
}

#[test]
fn test_pre_notify() {
    let m = material();
    let payment = Payment::new(config(&m));
    let query_str = "gmt_create=2024-07-24+10%3A43%3A59&charset=UTF-8&seller_email=lwojga1716%40sandbox.com&subject=%E6%97%85%E8%A1%8C%E5%8D%A1%E5%B9%B4%E5%8D%A1%E6%9C%8D%E5%8A%A1&sign=kT7bTHhFPgBeOqEqmNe09%2BxmsZWJrxihcAL6fuf3VSvsU3eg6b0o3yDU8xAZZbXkEBGyACRppAgiabnHzh9SyFrSbJTAY8GUemvgiVgh9r3Sbsb%2Fij1Ef94AgXJYxBclcGDNfcM%2FVtySaLuBjZLmqSX4M6cWq3b3vBG%2BYIxew83ZchOBEMSSSnzpIUkRoFPYQ9Y1YDUCaEnDlslJ%2BLSKlQS2ZsgLmbOmZ%2BeNAJ0wxIw8SCR4Kd6AkuSkinjiPhVVGqbtxJK6iu9q1T9MqwdrG8MqJl0ztni3emWMuuihCC%2B5biYVM0u49HUnHEW%2BS%2FyerbllJWu%2BykG%2FvHFAnrz2Bw%3D%3D&buyer_id=2088722032795825&invoice_amount=0.99&notify_id=2024072401222104407195820503475973&fund_bill_list=%5B%7B%22amount%22%3A%220.99%22%2C%22fundChannel%22%3A%22ALIPAYACCOUNT%22%7D%5D&notify_type=trade_status_sync&trade_status=TRADE_SUCCESS&receipt_amount=0.99&buyer_pay_amount=0.99&app_id=9021000135675809&sign_type=RSA2&seller_id=2088721032816228&gmt_payment=2024-07-24+10%3A44%3A06&notify_time=2024-07-24+10%3A44%3A07&version=1.0&out_trade_no=T20240407007&total_amount=0.99&trade_no=2024072422001495820503421248&auth_app_id=9021000135675809&buyer_logon_id=uyskdk2812%40sandbox.com&point_amount=0.00";
    let result = payment.notify(query_str);
    if result.is_err() {
        let error = result.err().unwrap();
        println!("{}", error.describe());
    } else {
        let result = result.unwrap();
        assert_eq!(result.out_trade_no, "T20240407007".to_string());
        println!("{:?}", result);
    }
}

#[test]
fn an_order_is_prepared_with_the_address_for_notifications() {
    let m = material();
    let payment = Payment::new(AlipayConfig { notify_url: Some("https://example.com/n".to_string()), ..config(&m) });
    let data = ReqOrderBody {
        out_trade_no: "T20240407003".to_string(),
        total_amount: "10.01".to_string(),
        subject: "card".to_string(),
        product_code: Some("JSAPI_PAY".to_string()),
        ..Default::default()
    };
    let op = payment.create_order("alipay.trade.create", data.clone());
    assert_eq!(op.uri, "/v3/alipay/trade/create");
    assert_eq!(op.method, "POST");
    assert_eq!(op.body.notify_url.as_deref(), Some("https://example.com/n"));
    assert_eq!(op.body.out_trade_no, "T20240407003");
    assert_eq!(op.body.total_amount, "10.01");
    assert_eq!(op.body.product_code.as_deref(), Some("JSAPI_PAY"));
    let own = ReqOrderBody { notify_url: Some("https://own.example/n".to_string()), ..data.clone() };
    assert_eq!(payment.create_order("alipay.trade.wap.pay", own).body.notify_url.as_deref(), Some("https://own.example/n"));
    let silent = Payment::new(config(&m));
    assert_eq!(silent.create_order("alipay.trade.precreate", data).body.notify_url, None);
}

#[test]
fn the_other_operations_are_prepared() {
    let m = material();
    let payment = Payment::new(config(&m));
    let op = payment.query_order("2406220006");
    assert_eq!((op.uri.as_str(), op.method.as_str()), ("/v3/alipay/trade/query", "POST"));
    assert_eq!(op.body.out_trade_no.as_deref(), Some("2406220006"));
    assert_eq!(op.body.trade_no, None);
    assert_eq!(op.body.query_options, None);
    let op = payment.query_order_by_trade_no("2024062222001401371424183634");
    assert_eq!(op.uri, "/v3/alipay/trade/query");
    assert_eq!(op.body.out_trade_no, None);
    assert_eq!(op.body.trade_no.as_deref(), Some("2024062222001401371424183634"));
    let op = payment.close_order(ReqCloseOrderBody { out_trade_no: Some("T1".to_string()), ..Default::default() });
    assert_eq!((op.uri.as_str(), op.method.as_str()), ("/v3/alipay/trade/close", "POST"));
    assert_eq!(op.body.out_trade_no.as_deref(), Some("T1"));
    let op = payment.cancel_order(ReqCancelOrderBody { trade_no: Some("9".to_string()), ..Default::default() });
    assert_eq!((op.uri.as_str(), op.method.as_str()), ("/v3/alipay/trade/cancel", "POST"));
    assert_eq!(op.body.trade_no.as_deref(), Some("9"));
    let op = payment.refund(ReqRefundOrder { refund_amount: "10".to_string(), ..Default::default() });
    assert_eq!((op.uri.as_str(), op.method.as_str()), ("/v3/alipay/trade/refund", "POST"));
    assert_eq!(op.body.refund_amount, "10");
    let op = payment.query_refund(ReqRefundQuery { out_request_no: Some("T4".to_string()), ..Default::default() });
    assert_eq!((op.uri.as_str(), op.method.as_str()), ("/v3/alipay/trade/fastpay/refund/query", "POST"));
    assert_eq!(op.body.out_request_no.as_deref(), Some("T4"));
    let op = payment.trade_bill(ReqBillQuery {
        bill_type: "trade".to_string(),
        bill_date: "2024-07-24".to_string(),
        ..Default::default()
    });
    assert_eq!((op.uri.as_str(), op.method.as_str()), ("/v3/alipay/data/dataservice/bill/downloadurl/query", "POST"));
    assert_eq!(op.body.bill_date, "2024-07-24");
}
