//! The client of the shared-secret provider: request signing, response
//! checks, body encryption and query-string notifications.

use crate::alipay::dict::notify::{has_required, holds_params, NotifyOrderBody};
use crate::alipay::dict::order::{
    ReqCancelOrderBody, ReqCloseOrderBody, ReqOrderBody, ReqQueryOrderBody,
};
use crate::alipay::params::{
    claimed_signature, collect_params, collected, distinct_names,
    lemma_order_of_parameters_does_not_matter, query_string, query_text,
};
use crate::certificate::{
    digest_identity_outcome, get_cert_sn, get_root_cert_sn, root_serial_text,
};
use crate::cipher::{cbc_decrypt, cbc_decryption_outcome, cbc_encrypt, cbc_encryption_outcome};
use crate::encoding::{base64_bytes, hex_text};
use crate::error::{flag_outcome, text_outcome, WeaError};
use crate::encoding::fits;
use crate::request::{
    attach_body, find_header, header_value, is_success, join_url, normalize_method, query_pairs,
    read_claim, request_outcome, status_message, transport_body, transport_method, url_joined,
    url_query_pairs, AuthenticatedRequest, Operation, RequestModel,
};
use crate::signature::{
    accepts_signatures_of, is_signature_of, lemma_signature_round_trip, sign, signature_outcome,
    verification_outcome, verify,
};
use crate::text::{replace_all, replaced, same_text};
use crate::utils::{decimal_string, decimal_text, generate_random_string, get_timestamp_millis};
use crate::{AlipayConfig, Payment, WeaResult, SDK_UA};
use vstd::prelude::*;
use vstd::string::{StrSliceExecFns, StringExecFns};
use vstd::utf8::encode_utf8;

verus! {

/// The address of the provider's production service.
pub const ALIPAY_BASE_URL: &'static str = "https://openapi.alipay.com";

/// The address of the provider's sandbox.
pub const ALIPAY_SANDBOX_URL: &'static str = "https://openapi-sandbox.dl.alipaydev.com";

/// The scheme tag of the Authorization header.
pub const ALIPAY_SCHEME: &'static str = "ALIPAY-SHA256withRSA";

/// The identifying part of the Authorization header, which is also the first
/// signed field. In certificate mode it carries the identity of the
/// application's certificate.
pub open spec fn auth_text(
    app_id: Seq<char>,
    cert_sn: Option<Seq<char>>,
    nonce: Seq<char>,
    timestamp: Seq<char>,
) -> Seq<char> {
    match cert_sn {
        Some(sn) => "app_id="@ + app_id + ",app_cert_sn="@ + sn + ",nonce="@ + nonce
            + ",timestamp="@ + timestamp,
        None => "app_id="@ + app_id + ",nonce="@ + nonce + ",timestamp="@ + timestamp,
    }
}

/// Writes the identifying part of the Authorization header.
pub fn auth_string(app_id: &str, cert_sn: Option<&str>, nonce: &str, timestamp: &str) -> (out:
    String)
    ensures
        out@ == auth_text(app_id@, cert_sn.deep_view(), nonce@, timestamp@),
{
    let mut out = String::from_str("app_id=");
    out.append(app_id);
    match cert_sn {
        Some(sn) => {
            out.append(",app_cert_sn=");
            out.append(sn);
        },
        None => {},
    }
    out.append(",nonce=");
    out.append(nonce);
    out.append(",timestamp=");
    out.append(timestamp);
    out
}

/// The value of the Authorization header.
pub open spec fn authorization_text(auth: Seq<char>, signature: Seq<char>) -> Seq<char> {
    ALIPAY_SCHEME@ + " "@ + auth + ",sign="@ + signature
}

/// Writes the value of the Authorization header.
pub fn authorization_string(auth: &str, signature: &str) -> (out: String)
    ensures
        out@ == authorization_text(auth@, signature@),
{
    let mut out = String::from_str(ALIPAY_SCHEME);
    out.append(" ");
    out.append(auth);
    out.append(",sign=");
    out.append(signature);
    out
}

/// Whether the client works in certificate mode.
pub open spec fn cert_mode(config: AlipayConfig) -> bool {
    config.alipay_root_cert is Some
}

/// The base address that the configuration selects.
pub open spec fn base_url(config: AlipayConfig) -> Seq<char> {
    if config.is_sandbox == Some(true) {
        ALIPAY_SANDBOX_URL@
    } else {
        ALIPAY_BASE_URL@
    }
}

/// The identity of the application's certificate that a request carries:
/// none outside certificate mode, and the error kind `KeyLoad` where
/// certificate mode lacks the certificate.
pub open spec fn app_cert_sn_outcome(config: AlipayConfig) -> Result<Option<Seq<char>>, Seq<char>> {
    if !cert_mode(config) {
        Ok(None)
    } else {
        match config.app_public_cert {
            None => Err("KeyLoad"@),
            Some(cert) => match digest_identity_outcome(encode_utf8(cert@)) {
                Ok(sn) => Ok(Some(sn)),
                Err(kind) => Err(kind),
            },
        }
    }
}

/// The body that is signed and sent: encrypted where the configuration holds
/// a key for bodies.
pub open spec fn sent_body_outcome(config: AlipayConfig, body: Seq<char>) -> Result<
    Seq<char>,
    Seq<char>,
> {
    match config.mch_key {
        Some(key) => cbc_encryption_outcome(body, key@),
        None => Ok(body),
    }
}

/// The headers of a request, in the order in which they are set.
pub open spec fn request_headers(
    config: AlipayConfig,
    request_id: Seq<char>,
    authorization: Seq<char>,
) -> Seq<(Seq<char>, Seq<char>)> {
    let content = if config.mch_key is Some {
        seq![("alipay-encrypt-type"@, "AES"@), ("Content-Type"@, "text/plain"@)]
    } else {
        seq![("Content-Type"@, "application/json"@)]
    };
    let root = match config.alipay_root_cert {
        Some(bundle) => seq![("alipay-root-cert-sn"@, root_serial_text(bundle@))],
        None => Seq::empty(),
    };
    content + root + seq![
        ("Accept"@, "application/json"@),
        ("User-Agent"@, SDK_UA@),
        ("alipay-request-id"@, request_id),
        ("Authorization"@, authorization),
    ]
}

/// What building a request comes to for a given time stamp, nonce and request
/// identifier. The body is encrypted before it is signed, and the signature
/// covers the identifying text, the method, the path and the body as sent.
pub open spec fn built_request(
    config: AlipayConfig,
    url: Seq<char>,
    method: Seq<char>,
    body: Seq<char>,
    timestamp: Seq<char>,
    nonce: Seq<char>,
    request_id: Seq<char>,
) -> Result<RequestModel, Seq<char>> {
    match url_joined(base_url(config), url) {
        None => Err("Url"@),
        Some(None) => Err("Url"@),
        Some(Some(full_url)) => match app_cert_sn_outcome(config) {
            Err(kind) => Err(kind),
            Ok(cert_sn) => match sent_body_outcome(config, body) {
                Err(kind) => Err(kind),
                Ok(sent) => {
                    let auth = auth_text(config.app_id@, cert_sn, nonce, timestamp);
                    match signature_outcome(seq![auth, method, url, sent], config.app_private_key@) {
                        Err(kind) => Err(kind),
                        Ok(signature) => Ok(
                            RequestModel {
                                method: transport_method(method),
                                url: full_url,
                                headers: request_headers(
                                    config,
                                    request_id,
                                    authorization_text(auth, signature),
                                ),
                                body: transport_body(sent),
                            },
                        ),
                    }
                },
            },
        },
    }
}

/// The fields that the signature of a request covers: the identifying text,
/// the method, the path and the body as sent.
pub open spec fn signed_fields(
    config: AlipayConfig,
    url: Seq<char>,
    method: Seq<char>,
    body: Seq<char>,
    timestamp: Seq<char>,
    nonce: Seq<char>,
) -> Seq<Seq<char>> {
    let cert_sn = match app_cert_sn_outcome(config) {
        Ok(cert_sn) => cert_sn,
        Err(_) => None,
    };
    let sent = match sent_body_outcome(config, body) {
        Ok(sent) => sent,
        Err(_) => body,
    };
    seq![auth_text(config.app_id@, cert_sn, nonce, timestamp), method, url, sent]
}

/// Whether the last header of `request` is the Authorization made of the
/// identifying text and of the signature that signing `fields` with the
/// private key of the configuration gives. Such a signature decodes to what
/// the signer made, so that it verifies over the same fields under every key
/// that matches.
pub open spec fn carries_signature(
    config: AlipayConfig,
    request: RequestModel,
    fields: Seq<Seq<char>>,
) -> bool {
    exists|signature: Seq<char>|
        {
            &&& #[trigger] is_signature_of(signature, fields, config.app_private_key@)
            &&& request.headers.len() > 0
            &&& request.headers.last() == ("Authorization"@, authorization_text(fields[0], signature))
        }
}

/// What the check of a response's own claims comes to. In certificate mode a
/// response that names the serial of its signer must name the identity of
/// the provider's certificate of the configuration and carry a signature over
/// its time stamp, nonce and body that verifies under it. A response without
/// such a serial, or outside certificate mode, is not checked.
pub open spec fn response_check(
    config: AlipayConfig,
    headers: Seq<(Seq<char>, Seq<char>)>,
    body: Seq<char>,
) -> Result<(), Seq<char>> {
    match header_value(headers, "alipay-sn"@) {
        None => Ok(()),
        Some(sn) => if !cert_mode(config) {
            Ok(())
        } else {
            match digest_identity_outcome(encode_utf8(config.alipay_public_cert@)) {
                Err(kind) => Err(kind),
                Ok(expected) => if sn != expected {
                    Err("Verification"@)
                } else {
                    match (
                        header_value(headers, "alipay-timestamp"@),
                        header_value(headers, "alipay-nonce"@),
                        header_value(headers, "alipay-signature"@),
                    ) {
                        (Some(timestamp), Some(nonce), Some(signature)) => match verification_outcome(
                            seq![timestamp, nonce, body],
                            signature,
                            config.alipay_public_cert@,
                        ) {
                            Err(kind) => Err(kind),
                            Ok(valid) => if valid {
                                Ok(())
                            } else {
                                Err("SignatureMismatch"@)
                            },
                        },
                        _ => Err("Verification"@),
                    }
                },
            }
        },
    }
}

/// What reading a response comes to: the text to be parsed, which is the
/// body, decrypted where the configuration holds a key for bodies.
pub open spec fn response_outcome(
    config: AlipayConfig,
    status: u16,
    headers: Seq<(Seq<char>, Seq<char>)>,
    body: Seq<char>,
) -> Result<Seq<char>, Seq<char>> {
    match response_check(config, headers, body) {
        Err(kind) => Err(kind),
        Ok(_) => if is_success(status) {
            match config.mch_key {
                Some(key) => cbc_decryption_outcome(body, key@),
                None => Ok(body),
            }
        } else {
            Err("Status"@)
        },
    }
}

/// What a list of query parameters comes to as a notification: the signed
/// parameters sorted by name, where the claimed signature verifies over their
/// `&`-joined text, taken as a single field.
pub open spec fn notification_outcome(config: AlipayConfig, pairs: Seq<(Seq<char>, Seq<char>)>) -> Result<
    Seq<(Seq<char>, Seq<char>)>,
    Seq<char>,
> {
    match verification_outcome(
        seq![query_text(collected(pairs))],
        claimed_signature(pairs),
        config.alipay_public_cert@,
    ) {
        Err(kind) => Err(kind),
        Ok(valid) => if valid {
            Ok(collected(pairs))
        } else {
            Err("SignatureMismatch"@)
        },
    }
}

/// What building or checking parameters came to: the parameters, or the kind
/// of the error.
pub open spec fn params_outcome(r: Result<Vec<(String, String)>, WeaError>) -> Result<
    Seq<(Seq<char>, Seq<char>)>,
    Seq<char>,
> {
    match r {
        Ok(params) => Ok(params.deep_view()),
        Err(err) => Err(err.kind@),
    }
}

/// What building a request comes to for what was drawn: the count of the clock
/// and the random bytes of nonce and request identifier.
pub open spec fn drawn_request(
    config: AlipayConfig,
    url: Seq<char>,
    method: Seq<char>,
    body: Seq<char>,
    time: nat,
    nonce: Seq<u8>,
    id: Seq<u8>,
) -> Result<RequestModel, Seq<char>> {
    built_request(
        config,
        url,
        method,
        body,
        decimal_text(time),
        hex_text(nonce).take(32),
        hex_text(id).take(32),
    )
}

/// What a client of the shared-secret provider does.
pub trait BaseTrait {
    /// Prepares the placing of an order through the operation `method`, such
    /// as `alipay.trade.create`.
    fn create_order(&self, method: &str, data: ReqOrderBody) -> Operation<ReqOrderBody>;

    /// Prepares the query of an order by the merchant's number.
    fn query_order(&self, out_trade_no: &str) -> Operation<ReqQueryOrderBody>;

    /// Prepares the query of an order by the provider's number.
    fn query_order_by_trade_no(&self, trade_no: &str) -> Operation<ReqQueryOrderBody>;

    /// Prepares the closing of an order.
    fn close_order(&self, body: ReqCloseOrderBody) -> Operation<ReqCloseOrderBody>;

    /// Prepares the cancelling of an order.
    fn cancel_order(&self, body: ReqCancelOrderBody) -> Operation<ReqCancelOrderBody>;

    /// Reads a response: checks what it claims of itself, then hands out the
    /// text to be parsed, or the error that the status stands for.
    fn interpret_response(&self, status: u16, headers: &Vec<(String, String)>, body: &str) -> WeaResult<
        String,
    >;

    /// Checks a notification that arrived as a query string and reads it.
    fn notify(&self, query_str: &str) -> WeaResult<NotifyOrderBody>;

    /// Checks a notification whose query parameters were already read.
    fn verify_notification(&self, pairs: &Vec<(String, String)>) -> WeaResult<Vec<(String, String)>>;

    /// The path of the operation that `method` names, such as
    /// `alipay.trade.query`.
    fn get_uri(&self, method: &str) -> String;

    /// Builds the signed request for `url`, drawing the time stamp, the nonce
    /// and the request identifier.
    fn build_request_builder(&self, url: &str, method: &str, body: &str) -> WeaResult<
        AuthenticatedRequest,
    >;

    /// Builds the signed request for `url` with the given time stamp, nonce and
    /// request identifier.
    fn build_request_with(
        &self,
        url: &str,
        method: &str,
        body: &str,
        timestamp: &str,
        nonce: &str,
        request_id: &str,
    ) -> WeaResult<AuthenticatedRequest>;

    /// Verifies a signature of the provider over `data`.
    fn verify_signature(&self, data: Vec<&str>, signature: &str) -> WeaResult<bool>;

    /// Encrypts a body.
    fn encrypt(&self, data: &str) -> WeaResult<String>;

    /// Decrypts a body.
    fn decrypt(&self, data: &str) -> WeaResult<String>;
}

impl BaseTrait for Payment<AlipayConfig> {
    /// An order that names no address for notifications gets the one of the
    /// configuration.
    fn create_order(&self, method: &str, data: ReqOrderBody) -> (op: Operation<ReqOrderBody>)
        ensures
            op.uri@ == "/v3/"@ + replaced(method@, "."@, "/"@),
            op.method@ == "POST"@,
            op.body == (ReqOrderBody {
                notify_url: if data.notify_url is Some {
                    data.notify_url
                } else {
                    self.config.notify_url
                },
                ..data
            }),
    {
        let uri = self.get_uri(method);
        let mut body = data;
        if body.notify_url.is_none() {
            body.notify_url = self.config.notify_url.clone();
        }
        Operation { uri, method: String::from_str("POST"), body }
    }

    fn query_order(&self, out_trade_no: &str) -> (op: Operation<ReqQueryOrderBody>)
        ensures
            op.uri@ == "/v3/alipay/trade/query"@,
            op.method@ == "POST"@,
            op.body.out_trade_no.deep_view() == Some(out_trade_no@),
            op.body.trade_no is None,
            op.body.query_options is None,
    {
        Operation {
            uri: String::from_str("/v3/alipay/trade/query"),
            method: String::from_str("POST"),
            body: ReqQueryOrderBody {
                out_trade_no: Some(String::from_str(out_trade_no)),
                trade_no: None,
                query_options: None,
            },
        }
    }

    fn query_order_by_trade_no(&self, trade_no: &str) -> (op: Operation<ReqQueryOrderBody>)
        ensures
            op.uri@ == "/v3/alipay/trade/query"@,
            op.method@ == "POST"@,
            op.body.out_trade_no is None,
            op.body.trade_no.deep_view() == Some(trade_no@),
            op.body.query_options is None,
    {
        Operation {
            uri: String::from_str("/v3/alipay/trade/query"),
            method: String::from_str("POST"),
            body: ReqQueryOrderBody {
                out_trade_no: None,
                trade_no: Some(String::from_str(trade_no)),
                query_options: None,
            },
        }
    }

    fn close_order(&self, body: ReqCloseOrderBody) -> (op: Operation<ReqCloseOrderBody>)
        ensures
            op.uri@ == "/v3/alipay/trade/close"@,
            op.method@ == "POST"@,
            op.body == body,
    {
        Operation {
            uri: String::from_str("/v3/alipay/trade/close"),
            method: String::from_str("POST"),
            body,
        }
    }

    fn cancel_order(&self, body: ReqCancelOrderBody) -> (op: Operation<ReqCancelOrderBody>)
        ensures
            op.uri@ == "/v3/alipay/trade/cancel"@,
            op.method@ == "POST"@,
            op.body == body,
    {
        Operation {
            uri: String::from_str("/v3/alipay/trade/cancel"),
            method: String::from_str("POST"),
            body,
        }
    }

    /// The path is `/v3/` followed by the operation name with its dots turned
    /// into slashes.
    fn get_uri(&self, method: &str) -> (uri: String)
        ensures
            uri@ == "/v3/"@ + replaced(method@, "."@, "/"@),
    {
        let path = replace_all(method, ".", "/");
        let mut uri = String::from_str("/v3/");
        uri.append(path.as_str());
        uri
    }

    /// The request is the one that `build_request_with` makes for what was
    /// drawn: the milliseconds of the clock in decimal as time stamp, and for
    /// nonce and request identifier the 32 hexadecimal digits of sixteen
    /// random bytes each. Its Authorization carries the signature of the
    /// signed fields. The error kinds `SystemTime` and `Random` stand for a
    /// draw that failed.
    fn build_request_builder(&self, url: &str, method: &str, body: &str) -> (r: WeaResult<
        AuthenticatedRequest,
    >)
        ensures
            match r {
                Ok(request) => exists|time: nat, nonce: Seq<u8>, id: Seq<u8>|
                    {
                        &&& nonce.len() == 16
                        &&& id.len() == 16
                        &&& #[trigger] drawn_request(
                            self.config,
                            url@,
                            method@,
                            body@,
                            time,
                            nonce,
                            id,
                        ) == Ok::<RequestModel, Seq<char>>(request.model())
                        &&& carries_signature(
                            self.config,
                            request.model(),
                            signed_fields(
                                self.config,
                                url@,
                                method@,
                                body@,
                                decimal_text(time),
                                hex_text(nonce).take(32),
                            ),
                        )
                    },
                Err(err) => err.kind@ == "SystemTime"@ || err.kind@ == "Random"@ || exists|
                    time: nat,
                    nonce: Seq<u8>,
                    id: Seq<u8>,
                |
                    {
                        &&& nonce.len() == 16
                        &&& id.len() == 16
                        &&& #[trigger] drawn_request(
                            self.config,
                            url@,
                            method@,
                            body@,
                            time,
                            nonce,
                            id,
                        ) == Err::<RequestModel, Seq<char>>(err.kind@)
                    },
            },
    {
        let millis = match get_timestamp_millis() {
            Ok(millis) => millis,
            Err(err) => { return Err(err); },
        };
        let timestamp = decimal_string(millis);
        let nonce = match generate_random_string(32) {
            Ok(nonce) => nonce,
            Err(err) => { return Err(err); },
        };
        let request_id = match generate_random_string(32) {
            Ok(request_id) => request_id,
            Err(err) => { return Err(err); },
        };
        let r = self.build_request_with(
            url,
            method,
            body,
            timestamp.as_str(),
            nonce.as_str(),
            request_id.as_str(),
        );
        proof {
            let nonce_bytes = choose|bytes: Seq<u8>|
                bytes.len() == 16 && nonce@ == #[trigger] hex_text(bytes).take(32);
            let id_bytes = choose|bytes: Seq<u8>|
                bytes.len() == 16 && request_id@ == #[trigger] hex_text(bytes).take(32);
            let outcome = drawn_request(
                self.config,
                url@,
                method@,
                body@,
                millis as nat,
                nonce_bytes,
                id_bytes,
            );
            assert(request_outcome(r) == outcome);
        }
        r
    }

    /// The request is exactly the one of the model, and its last header, the
    /// Authorization, carries the signature of the signed fields.
    fn build_request_with(
        &self,
        url: &str,
        method: &str,
        body: &str,
        timestamp: &str,
        nonce: &str,
        request_id: &str,
    ) -> (r: WeaResult<AuthenticatedRequest>)
        ensures
            request_outcome(r) == built_request(
                self.config,
                url@,
                method@,
                body@,
                timestamp@,
                nonce@,
                request_id@,
            ),
            r matches Ok(request) ==> carries_signature(
                self.config,
                request.model(),
                signed_fields(self.config, url@, method@, body@, timestamp@, nonce@),
            ),
    {
        let base = match self.config.is_sandbox {
            Some(true) => ALIPAY_SANDBOX_URL,
            _ => ALIPAY_BASE_URL,
        };
        let full_url = match join_url(base, url) {
            None => { return Err(WeaError::new("Url", String::from_str("parse url error"))); },
            Some(None) => { return Err(WeaError::new("Url", String::from_str("join url error"))); },
            Some(Some(full_url)) => full_url,
        };
        let cert_sn: Option<String> = match &self.config.alipay_root_cert {
            None => None,
            Some(_) => match &self.config.app_public_cert {
                None => {
                    return Err(
                        WeaError::new("KeyLoad", String::from_str("app_public_cert is none")),
                    );
                },
                Some(cert) => Some(get_cert_sn(cert.as_str())?),
            },
        };
        let sent: String = match &self.config.mch_key {
            Some(key) => cbc_encrypt(body, key.as_str())?,
            None => String::from_str(body),
        };
        let auth = match &cert_sn {
            Some(sn) => auth_string(self.config.app_id.as_str(), Some(sn.as_str()), nonce, timestamp),
            None => auth_string(self.config.app_id.as_str(), None, nonce, timestamp),
        };
        let fields: Vec<&str> = vec![auth.as_str(), method, url, sent.as_str()];
        assert(fields.deep_view() =~= seq![auth@, method@, url@, sent@]);
        let signature = sign(&fields, self.config.app_private_key.as_str())?;
        let authorization = authorization_string(auth.as_str(), signature.as_str());
        let mut headers: Vec<(String, String)> = Vec::new();
        if self.config.mch_key.is_some() {
            headers.push((String::from_str("alipay-encrypt-type"), String::from_str("AES")));
            headers.push((String::from_str("Content-Type"), String::from_str("text/plain")));
        } else {
            headers.push((String::from_str("Content-Type"), String::from_str("application/json")));
        }
        match &self.config.alipay_root_cert {
            Some(bundle) => {
                let root_sn = get_root_cert_sn(bundle.as_str());
                headers.push((String::from_str("alipay-root-cert-sn"), root_sn));
            },
            None => {},
        }
        headers.push((String::from_str("Accept"), String::from_str("application/json")));
        headers.push((String::from_str("User-Agent"), String::from_str(SDK_UA)));
        headers.push((String::from_str("alipay-request-id"), String::from_str(request_id)));
        headers.push((String::from_str("Authorization"), authorization));
        assert(headers.deep_view() =~= request_headers(self.config, request_id@, authorization@));
        proof {
            let signed = signed_fields(self.config, url@, method@, body@, timestamp@, nonce@);
            assert(fields.deep_view() =~= signed);
            assert(is_signature_of(signature@, signed, self.config.app_private_key@));
            assert(headers.deep_view().last() == ("Authorization"@, authorization@));
        }
        Ok(
            AuthenticatedRequest {
                method: normalize_method(method),
                url: full_url,
                headers,
                body: attach_body(sent),
            },
        )
    }

    /// The data is verified under the provider's public key of the
    /// configuration.
    fn verify_signature(&self, data: Vec<&str>, signature: &str) -> (r: WeaResult<bool>)
        ensures
            flag_outcome(r) == verification_outcome(
                data.deep_view(),
                signature@,
                self.config.alipay_public_cert@,
            ),
    {
        verify(&data, signature, self.config.alipay_public_cert.as_str())
    }

    /// The error kind is `KeyLoad` where the configuration holds no key for
    /// bodies. What was encrypted decrypts to itself under the same
    /// configuration. The result is the base64 text of the ciphertext alone:
    /// the data filled up to the next whole block of sixteen bytes.
    fn encrypt(&self, data: &str) -> (r: WeaResult<String>)
        ensures
            text_outcome(r) == match self.config.mch_key {
                Some(key) => cbc_encryption_outcome(data@, key@),
                None => Err("KeyLoad"@),
            },
            r matches Ok(text) ==> (self.config.mch_key matches Some(key)
                && cbc_decryption_outcome(text@, key@) == Ok::<Seq<char>, Seq<char>>(data@)),
            r matches Ok(text) ==> (base64_bytes(text@) matches Some(raw) && raw.len() == 16 * (
                encode_utf8(data@).len() / 16 + 1)),
    {
        match &self.config.mch_key {
            None => Err(WeaError::new("KeyLoad", String::from_str("mch_key is none"))),
            Some(key) => cbc_encrypt(data, key.as_str()),
        }
    }

    /// The error kind is `KeyLoad` where the configuration holds no key for
    /// bodies.
    fn decrypt(&self, data: &str) -> (r: WeaResult<String>)
        ensures
            text_outcome(r) == match self.config.mch_key {
                Some(key) => cbc_decryption_outcome(data@, key@),
                None => Err("KeyLoad"@),
            },
    {
        match &self.config.mch_key {
            None => Err(WeaError::new("KeyLoad", String::from_str("mch_key is none"))),
            Some(key) => cbc_decrypt(data, key.as_str()),
        }
    }

    /// The error kind is `Verification` where the response names another
    /// serial than the configured certificate has or lacks one of the headers
    /// that carry time stamp, nonce and signature, `SignatureMismatch` where
    /// the signature does not verify, and `Status` where the status is neither
    /// 200 nor 204; the message of a `Status` error is the body, or the status
    /// where the body is empty.
    fn interpret_response(&self, status: u16, headers: &Vec<(String, String)>, body: &str) -> (r:
        WeaResult<String>)
        ensures
            text_outcome(r) == response_outcome(self.config, status, headers.deep_view(), body@),
            response_check(self.config, headers.deep_view(), body@) is Ok && !is_success(status)
                ==> (r matches Err(err) && err.message@ == status_message(status, body@)),
    {
        match find_header(headers, "alipay-sn") {
            None => {},
            Some(sn) => {
                if self.config.alipay_root_cert.is_some() {
                    let expected = get_cert_sn(self.config.alipay_public_cert.as_str())?;
                    if !same_text(sn, expected.as_str()) {
                        return Err(
                            WeaError::new("Verification", String::from_str("alipay-sn is not match")),
                        );
                    }
                    match read_claim(
                        headers,
                        body,
                        "alipay-sn",
                        "alipay-timestamp",
                        "alipay-nonce",
                        "alipay-signature",
                    ) {
                        Some(claim) => {
                            let valid = claim.verify_under(self.config.alipay_public_cert.as_str())?;
                            if !valid {
                                return Err(
                                    WeaError::new(
                                        "SignatureMismatch",
                                        String::from_str("response verify signature error"),
                                    ),
                                );
                            }
                        },
                        None => {
                            return Err(
                                WeaError::new(
                                    "Verification",
                                    String::from_str("response lacks a signature header"),
                                ),
                            );
                        },
                    }
                }
            },
        }
        if status == 200 || status == 204 {
            match &self.config.mch_key {
                Some(key) => {
                    let r = cbc_decrypt(body, key.as_str());
                    r
                },
                None => Ok(String::from_str(body)),
            }
        } else if body.unicode_len() == 0 {
            Err(WeaError::new("Status", decimal_string(status as u128)))
        } else {
            Err(WeaError::new("Status", String::from_str(body)))
        }
    }

    /// The parameters are read from the query string by the `url` crate and
    /// checked as `verify_notification` says; the notification is then read
    /// from the signed parameters. The error kind is `Url` where the string
    /// cannot be read and `Serialization` where a parameter that must be
    /// there is missing.
    fn notify(&self, query_str: &str) -> (r: WeaResult<NotifyOrderBody>)
        ensures
            match r {
                Ok(body) => {
                    &&& url_query_pairs("https://xx.com/?"@ + query_str@) matches Some(pairs)
                    &&& notification_outcome(self.config, pairs) matches Ok(params)
                    &&& has_required(params)
                    &&& holds_params(body, params)
                },
                Err(err) => match url_query_pairs("https://xx.com/?"@ + query_str@) {
                    None => err.kind@ == "Url"@,
                    Some(pairs) => match notification_outcome(self.config, pairs) {
                        Err(kind) => err.kind@ == kind,
                        Ok(params) => !has_required(params) && err.kind@ == "Serialization"@,
                    },
                },
            },
    {
        let mut url = String::from_str("https://xx.com/?");
        url.append(query_str);
        match query_pairs(url.as_str()) {
            None => Err(WeaError::new("Url", String::from_str("parse url error"))),
            Some(pairs) => {
                let params = self.verify_notification(&pairs)?;
                NotifyOrderBody::from_params(&params)
            },
        }
    }

    /// The parameters but `sign` and `sign_type` are sorted by name and joined
    /// as `name=value` by `&`; the value of `sign` must verify over that text
    /// under the provider's public key. The error kind is `SignatureMismatch`
    /// where it does not.
    fn verify_notification(&self, pairs: &Vec<(String, String)>) -> (r: WeaResult<
        Vec<(String, String)>,
    >)
        ensures
            params_outcome(r) == notification_outcome(self.config, pairs.deep_view()),
    {
        let (params, signature) = collect_params(pairs);
        let text = query_string(&params);
        let fields: Vec<&str> = vec![text.as_str()];
        assert(fields.deep_view() =~= seq![text@]);
        let valid = self.verify_signature(fields, signature.as_str())?;
        if !valid {
            return Err(
                WeaError::new("SignatureMismatch", String::from_str("verify signature error")),
            );
        }
        Ok(params)
    }
}

/// Shuffling the parameters of a notification does not change what the
/// notification comes to: two lists that hold the same pairs, each name once,
/// are accepted or rejected alike and give the same signed parameters.
pub proof fn lemma_shuffled_notification_fares_alike(
    config: AlipayConfig,
    one: Seq<(Seq<char>, Seq<char>)>,
    other: Seq<(Seq<char>, Seq<char>)>,
)
    requires
        distinct_names(one),
        distinct_names(other),
        forall|pair: (Seq<char>, Seq<char>)| one.contains(pair) <==> other.contains(pair),
    ensures
        notification_outcome(config, one) == notification_outcome(config, other),
{
    lemma_order_of_parameters_does_not_matter(one, other);
}

/// A built request verifies under the key that matches: the signature that
/// its Authorization carries verifies over the signed fields under every
/// public key that matches the private key of the configuration.
pub proof fn lemma_built_request_verifies(
    config: AlipayConfig,
    request: RequestModel,
    fields: Seq<Seq<char>>,
    public_key: Seq<char>,
)
    requires
        carries_signature(config, request, fields),
        accepts_signatures_of(public_key, config.app_private_key@),
        fits(public_key),
    ensures
        exists|signature: Seq<char>|
            {
                &&& request.headers.last() == ("Authorization"@, authorization_text(fields[0], signature))
                &&& #[trigger] verification_outcome(fields, signature, public_key) == Ok::<
                    bool,
                    Seq<char>,
                >(true)
            },
{
    let signature = choose|signature: Seq<char>|
        {
            &&& #[trigger] is_signature_of(signature, fields, config.app_private_key@)
            &&& request.headers.len() > 0
            &&& request.headers.last() == ("Authorization"@, authorization_text(fields[0], signature))
        };
    lemma_signature_round_trip(fields, config.app_private_key@, public_key, signature);
}

} // verus!
