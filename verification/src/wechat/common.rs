//! The client of the certificate-based provider: request signing, response
//! and notification checks, and the decryption of what the provider sends.

use crate::cache::{CertificateRecord, FetchedCertificate};
use crate::certificate::{get_cert_serial, serial_identity_outcome};
use crate::cipher::{
    gcm_decrypt, gcm_decryption_outcome, gcm_encrypt, gcm_encryption_outcome,
};
use crate::encoding::{base64_bytes, fits, hex_text};
use crate::error::{flag_outcome, text_outcome, WeaError};
use crate::request::{
    attach_body, header_value, is_success, join_url, normalize_method, read_claim,
    request_outcome, status_message, transport_body, transport_method, url_joined,
    AuthenticatedRequest, Operation, RequestModel, VerificationClaim,
};
use crate::signature::{
    accepts_signatures_of, is_signature_of, lemma_signature_round_trip, sign, signature_outcome,
    verification_outcome, verify,
};
use crate::text::{contains, has_infix, replace_all, replaced, same_text};
use crate::utils::{decimal_string, decimal_text, generate_random_string, get_timestamp};
use crate::wechat::dict::cert::RespCertItem;
use crate::wechat::dict::order::{
    AppSignPackage, CreateOrderResponse, CreateOrderResult, JsapiSignPackage, ReqOrderBody,
    RespResource, TradeType,
};
use crate::{Payment, WeaResult, WechatConfig, SDK_UA};
use vstd::prelude::*;
use vstd::string::{StrSliceExecFns, StringExecFns};
use vstd::utf8::encode_utf8;

verus! {

/// The address of the provider's service.
pub const WECHAT_BASE_URL: &'static str = "https://api.mch.weixin.qq.com/";

/// The scheme tag of the Authorization header.
pub const WECHAT_SCHEME: &'static str = "WECHATPAY2-SHA256-RSA2048";

/// Whether the merchant acts through a service provider.
pub open spec fn service_provider(config: WechatConfig) -> bool {
    config.sp_appid is Some && config.sp_mchid is Some
}

/// The merchant in whose name requests are signed.
pub open spec fn signing_merchant(config: WechatConfig) -> Seq<char> {
    match config.sp_mchid {
        Some(sp_mchid) => if config.sp_appid is Some {
            sp_mchid@
        } else {
            config.mchid@
        },
        None => config.mchid@,
    }
}

/// The sign that introduces a parameter appended to `uri`: `&` where the path
/// has a query already, else `?`.
pub open spec fn query_sign(uri: Seq<char>) -> Seq<char> {
    if has_infix(uri, "?"@) {
        "&"@
    } else {
        "?"@
    }
}

/// The path of an operation as the configuration shapes it. Through a service
/// provider the payment paths move under `partner/`, and the merchants are
/// named as `sp_mchid` and `sub_mchid`; else the merchant is named as `mchid`.
/// Every parameter is introduced by the sign that the given path asks for.
pub open spec fn uri_text(config: WechatConfig, uri: Seq<char>, with_mchid: bool, with_sp: bool) -> Seq<
    char,
> {
    let sign = query_sign(uri);
    match config.sp_mchid {
        Some(sp_mchid) => if config.sp_appid is Some {
            let moved = replaced(uri, "/v3/pay/"@, "/v3/pay/partner/"@);
            let named = if with_sp {
                moved + sign + "sp_mchid="@ + sp_mchid@
            } else {
                moved
            };
            if with_mchid {
                named + sign + "sub_mchid="@ + config.mchid@
            } else {
                named
            }
        } else {
            plain_uri_text(config, uri, with_mchid)
        },
        None => plain_uri_text(config, uri, with_mchid),
    }
}

/// The path of an operation for a merchant that acts for itself.
pub open spec fn plain_uri_text(config: WechatConfig, uri: Seq<char>, with_mchid: bool) -> Seq<char> {
    if with_mchid {
        uri + query_sign(uri) + "mchid="@ + config.mchid@
    } else {
        uri
    }
}

/// The value of the Authorization header.
pub open spec fn authorization_text(
    mchid: Seq<char>,
    nonce: Seq<char>,
    timestamp: Seq<char>,
    serial: Seq<char>,
    signature: Seq<char>,
) -> Seq<char> {
    WECHAT_SCHEME@ + " mchid=\""@ + mchid + "\",nonce_str=\""@ + nonce + "\",timestamp=\""@
        + timestamp + "\",serial_no=\""@ + serial + "\",signature=\""@ + signature + "\""@
}

/// Writes the value of the Authorization header.
pub fn authorization_string(
    mchid: &str,
    nonce: &str,
    timestamp: &str,
    serial: &str,
    signature: &str,
) -> (out: String)
    ensures
        out@ == authorization_text(mchid@, nonce@, timestamp@, serial@, signature@),
{
    let mut out = String::from_str(WECHAT_SCHEME);
    out.append(" mchid=\"");
    out.append(mchid);
    out.append("\",nonce_str=\"");
    out.append(nonce);
    out.append("\",timestamp=\"");
    out.append(timestamp);
    out.append("\",serial_no=\"");
    out.append(serial);
    out.append("\",signature=\"");
    out.append(signature);
    out.append("\"");
    out
}

/// The headers of a request, in the order in which they are set.
pub open spec fn request_headers(authorization: Seq<char>) -> Seq<(Seq<char>, Seq<char>)> {
    seq![
        ("Content-Type"@, "application/json"@),
        ("Accept"@, "application/json"@),
        ("User-Agent"@, SDK_UA@),
        ("Authorization"@, authorization),
    ]
}

/// What building a request comes to for a given time stamp and nonce. The
/// signature covers the method, the path, the time stamp, the nonce and the
/// body.
pub open spec fn built_request(
    config: WechatConfig,
    url: Seq<char>,
    method: Seq<char>,
    body: Seq<char>,
    timestamp: Seq<char>,
    nonce: Seq<char>,
) -> Result<RequestModel, Seq<char>> {
    match url_joined(WECHAT_BASE_URL@, url) {
        None => Err("Url"@),
        Some(None) => Err("Url"@),
        Some(Some(full_url)) => match signature_outcome(
            seq![method, url, timestamp, nonce, body],
            config.apiclient_key@,
        ) {
            Err(kind) => Err(kind),
            Ok(signature) => match serial_identity_outcome(encode_utf8(config.apiclient_cert@)) {
                Err(kind) => Err(kind),
                Ok(serial) => Ok(
                    RequestModel {
                        method: transport_method(method),
                        url: full_url,
                        headers: request_headers(
                            authorization_text(
                                signing_merchant(config),
                                nonce,
                                timestamp,
                                serial,
                                signature,
                            ),
                        ),
                        body: transport_body(body),
                    },
                ),
            },
        },
    }
}

/// The fields that the signature of a request covers: the method, the path,
/// the time stamp, the nonce and the body.
pub open spec fn signed_fields(
    url: Seq<char>,
    method: Seq<char>,
    body: Seq<char>,
    timestamp: Seq<char>,
    nonce: Seq<char>,
) -> Seq<Seq<char>> {
    seq![method, url, timestamp, nonce, body]
}

/// Whether the last header of `request` is the Authorization that names the
/// signing merchant, the nonce, the time stamp and the serial of the
/// merchant's certificate, with the signature that signing `fields` with the
/// private key of the configuration gives. Such a signature decodes to what
/// the signer made, so that it verifies over the same fields under every key
/// that matches.
pub open spec fn carries_signature(
    config: WechatConfig,
    request: RequestModel,
    fields: Seq<Seq<char>>,
    timestamp: Seq<char>,
    nonce: Seq<char>,
) -> bool {
    exists|signature: Seq<char>|
        {
            &&& #[trigger] is_signature_of(signature, fields, config.apiclient_key@)
            &&& serial_identity_outcome(encode_utf8(config.apiclient_cert@)) matches Ok(serial)
            &&& request.headers.len() > 0
            &&& request.headers.last() == (
                "Authorization"@,
                authorization_text(signing_merchant(config), nonce, timestamp, serial, signature),
            )
        }
}

/// What the check of a message's own claims comes to: the record must be the
/// one of the serial that the message names, and the signature must verify
/// over time stamp, nonce and body under the record's certificate.
pub open spec fn claim_check(
    record: CertificateRecord,
    serial: Seq<char>,
    timestamp: Seq<char>,
    nonce: Seq<char>,
    body: Seq<char>,
    signature: Seq<char>,
) -> Result<(), Seq<char>> {
    if record.serial@ != serial {
        Err("Verification"@)
    } else {
        match verification_outcome(seq![timestamp, nonce, body], signature, record.pem@) {
            Err(kind) => Err(kind),
            Ok(valid) => if valid {
                Ok(())
            } else {
                Err("SignatureMismatch"@)
            },
        }
    }
}

/// What the check of a response comes to. Every response has to name the
/// serial of its signer and to carry time stamp, nonce and signature.
pub open spec fn response_check(
    record: CertificateRecord,
    headers: Seq<(Seq<char>, Seq<char>)>,
    body: Seq<char>,
) -> Result<(), Seq<char>> {
    match (
        header_value(headers, "Wechatpay-Serial"@),
        header_value(headers, "Wechatpay-Timestamp"@),
        header_value(headers, "Wechatpay-Nonce"@),
        header_value(headers, "Wechatpay-Signature"@),
    ) {
        (Some(serial), Some(timestamp), Some(nonce), Some(signature)) => claim_check(
            record,
            serial,
            timestamp,
            nonce,
            body,
            signature,
        ),
        _ => Err("Verification"@),
    }
}

/// What reading a response comes to: the body, which is the text to be
/// parsed.
pub open spec fn response_outcome(
    record: CertificateRecord,
    status: u16,
    headers: Seq<(Seq<char>, Seq<char>)>,
    body: Seq<char>,
) -> Result<Seq<char>, Seq<char>> {
    match response_check(record, headers, body) {
        Err(kind) => Err(kind),
        Ok(_) => if is_success(status) {
            Ok(body)
        } else {
            Err("Status"@)
        },
    }
}

/// The associated data of a resource; a resource without any has the empty
/// text.
pub open spec fn associated_text(resource: RespResource) -> Seq<char> {
    match resource.associated_data {
        Some(data) => data@,
        None => Seq::empty(),
    }
}

/// What a notification comes to: the plaintext of its resource. Nothing is
/// handed out unless the signature verified first; an envelope that could not
/// be read gives the error kind `Serialization`.
pub open spec fn notification_outcome(
    config: WechatConfig,
    record: CertificateRecord,
    serial: Seq<char>,
    timestamp: Seq<char>,
    nonce: Seq<char>,
    body: Seq<char>,
    signature: Seq<char>,
    resource: Option<RespResource>,
) -> Result<Seq<char>, Seq<char>> {
    match claim_check(record, serial, timestamp, nonce, body, signature) {
        Err(kind) => Err(kind),
        Ok(_) => match resource {
            None => Err("Serialization"@),
            Some(resource) => gcm_decryption_outcome(
                config.mch_key@,
                resource.nonce@,
                resource.ciphertext@,
                associated_text(resource),
            ),
        },
    }
}

/// What decrypting the certificates of a listing comes to: for each its
/// serial and its PEM text, in the order of the listing. An empty listing
/// gives the error kind `EmptyCertificateSet`, and the first certificate that
/// does not decrypt gives its error.
pub open spec fn listing_outcome(config: WechatConfig, items: Seq<RespCertItem>) -> Result<
    Seq<(Seq<char>, Seq<char>)>,
    Seq<char>,
> {
    if items.len() == 0 {
        Err("EmptyCertificateSet"@)
    } else {
        decrypted_items(config, items)
    }
}

/// The certificates of `items` decrypted one after another.
pub open spec fn decrypted_items(config: WechatConfig, items: Seq<RespCertItem>) -> Result<
    Seq<(Seq<char>, Seq<char>)>,
    Seq<char>,
>
    decreases items.len(),
{
    if items.len() == 0 {
        Ok(Seq::empty())
    } else {
        match decrypted_items(config, items.drop_last()) {
            Err(kind) => Err(kind),
            Ok(done) => {
                let data = items.last().encrypt_certificate;
                match gcm_decryption_outcome(
                    config.mch_key@,
                    data.nonce@,
                    data.ciphertext@,
                    data.associated_data@,
                ) {
                    Err(kind) => Err(kind),
                    Ok(pem) => Ok(done.push((items.last().serial_no@, pem))),
                }
            },
        }
    }
}

/// The serial and PEM text of each fetched certificate.
pub open spec fn fetched_pairs(fetched: Seq<FetchedCertificate>) -> Seq<(Seq<char>, Seq<char>)> {
    fetched.map_values(|one: FetchedCertificate| (one.serial@, one.pem@))
}

/// What decrypting a listing came to.
pub open spec fn fetched_outcome(r: Result<Vec<FetchedCertificate>, WeaError>) -> Result<
    Seq<(Seq<char>, Seq<char>)>,
    Seq<char>,
> {
    match r {
        Ok(fetched) => Ok(fetched_pairs(fetched@)),
        Err(err) => Err(err.kind@),
    }
}

/// The path on which an order is placed for a way of payment; orders cannot
/// be placed for the ways that have none.
pub open spec fn order_path(trade_type: TradeType) -> Option<Seq<char>> {
    match trade_type {
        TradeType::JSAPI => Some("/v3/pay/transactions/jsapi"@),
        TradeType::NATIVE => Some("/v3/pay/transactions/native"@),
        TradeType::App => Some("/v3/pay/transactions/app"@),
        TradeType::MWEB => Some("/v3/pay/transactions/h5"@),
        TradeType::MICROPAY => None,
        TradeType::FACEPAY => None,
    }
}

/// The order as it is sent: it names the merchant as the configuration has
/// it, and the address for notifications of the configuration where it names
/// none itself.
pub open spec fn sent_order(config: WechatConfig, data: ReqOrderBody) -> ReqOrderBody {
    let notify_url = if data.notify_url is Some {
        data.notify_url
    } else {
        Some(config.notify_url)
    };
    if service_provider(config) {
        ReqOrderBody {
            sp_appid: config.sp_appid,
            sp_mchid: config.sp_mchid,
            sub_appid: Some(config.app_id),
            sub_mchid: Some(config.mchid),
            notify_url,
            ..data
        }
    } else {
        ReqOrderBody { appid: Some(config.app_id), mchid: Some(config.mchid), notify_url, ..data }
    }
}

/// The body that closes an order: it names the merchant, or the service
/// provider and its sub-merchant.
pub open spec fn close_body_text(config: WechatConfig) -> Seq<char> {
    match config.sp_mchid {
        Some(sp_mchid) => if config.sp_appid is Some {
            "{\"sp_mchid\":\""@ + sp_mchid@ + "\",\"sub_mchid\":\""@ + config.mchid@ + "\"}"@
        } else {
            "{\"mchid\":\""@ + config.mchid@ + "\"}"@
        },
        None => "{\"mchid\":\""@ + config.mchid@ + "\"}"@,
    }
}

/// What signing the answer to a placed order comes to for a given time stamp
/// and nonce: the signature that starts the payment, for the ways of payment
/// that need one.
pub open spec fn pay_sign_outcome(
    config: WechatConfig,
    trade_type: TradeType,
    response: CreateOrderResponse,
    timestamp: Seq<char>,
    nonce: Seq<char>,
) -> Result<Option<Seq<char>>, Seq<char>> {
    match trade_type {
        TradeType::JSAPI => match response.prepay_id {
            None => Err("Serialization"@),
            Some(prepay_id) => match signature_outcome(
                seq![config.app_id@, timestamp, nonce, "prepay_id="@ + prepay_id@],
                config.apiclient_key@,
            ) {
                Ok(signature) => Ok(Some(signature)),
                Err(kind) => Err(kind),
            },
        },
        TradeType::App => match response.prepay_id {
            None => Err("Serialization"@),
            Some(prepay_id) => match signature_outcome(
                seq![config.app_id@, timestamp, nonce, prepay_id@],
                config.apiclient_key@,
            ) {
                Ok(signature) => Ok(Some(signature)),
                Err(kind) => Err(kind),
            },
        },
        _ => Ok(None),
    }
}

/// Whether `result` is what the answer `response` to a placed order becomes
/// for the way of payment, with the signature `signature`.
pub open spec fn is_order_result(
    config: WechatConfig,
    trade_type: TradeType,
    response: CreateOrderResponse,
    timestamp: Seq<char>,
    nonce: Seq<char>,
    signature: Option<Seq<char>>,
    result: CreateOrderResult,
) -> bool {
    match (trade_type, result) {
        (TradeType::JSAPI, CreateOrderResult::JSAPI(package)) => {
            &&& response.prepay_id matches Some(prepay_id)
            &&& package.app_id@ == config.app_id@
            &&& package.time_stamp@ == timestamp
            &&& package.nonce_str@ == nonce
            &&& package.package@ == "prepay_id="@ + prepay_id@
            &&& package.sign_type@ == "RSA"@
            &&& Some(package.pay_sign@) == signature
        },
        (TradeType::App, CreateOrderResult::APP(package)) => {
            &&& response.prepay_id matches Some(prepay_id)
            &&& package.app_id@ == config.app_id@
            &&& package.partner_id@ == config.mchid@
            &&& package.prepay_id@ == prepay_id@
            &&& package.package_value@ == "Sign=WXPay"@
            &&& package.nonce_str@ == nonce
            &&& package.time_stamp@ == timestamp
            &&& Some(package.sign@) == signature
        },
        (TradeType::JSAPI, _) => false,
        (TradeType::App, _) => false,
        (_, CreateOrderResult::Default(kept)) => kept == response && signature is None,
        (_, _) => false,
    }
}

/// What building a request comes to for what was drawn: the count of the clock
/// and the random bytes of the nonce.
pub open spec fn drawn_request(
    config: WechatConfig,
    url: Seq<char>,
    method: Seq<char>,
    body: Seq<char>,
    time: nat,
    nonce: Seq<u8>,
) -> Result<RequestModel, Seq<char>> {
    built_request(config, url, method, body, decimal_text(time), hex_text(nonce).take(32))
}

/// What signing the answer to a placed order comes to for what was drawn.
pub open spec fn drawn_pay_sign(
    config: WechatConfig,
    trade_type: TradeType,
    response: CreateOrderResponse,
    time: nat,
    nonce: Seq<u8>,
) -> Result<Option<Seq<char>>, Seq<char>> {
    pay_sign_outcome(config, trade_type, response, decimal_text(time), hex_text(nonce).take(32))
}

/// What a client of the certificate-based provider does.
pub trait BaseTrait {
    /// Prepares the placing of an order for a way of payment.
    fn create_order(&self, trade_type: TradeType, data: ReqOrderBody) -> WeaResult<
        Operation<ReqOrderBody>,
    >;

    /// Turns the answer to a placed order into what starts the payment,
    /// drawing the time stamp and the nonce.
    fn order_result(&self, trade_type: TradeType, response: CreateOrderResponse) -> WeaResult<
        CreateOrderResult,
    >;

    /// Turns the answer to a placed order into what starts the payment, with
    /// the given time stamp and nonce.
    fn order_result_with(
        &self,
        trade_type: TradeType,
        response: CreateOrderResponse,
        timestamp: &str,
        nonce: &str,
    ) -> WeaResult<CreateOrderResult>;

    /// Prepares the query of an order by the merchant's number.
    fn query_order(&self, out_trade_no: &str) -> Operation<()>;

    /// Prepares the query of an order by the provider's number.
    fn query_order_by_transaction_id(&self, transaction_id: &str) -> Operation<()>;

    /// Prepares the closing of an order.
    fn close_order(&self, out_trade_no: &str) -> Operation<String>;

    /// Prepares the listing of the provider's certificates.
    fn download_cert(&self) -> Operation<()>;

    /// Reads the answer to the listing of certificates. The answer is not
    /// verified: it brings the certificates that verification needs.
    fn interpret_certificates(
        &self,
        status: u16,
        body: &str,
        items: Option<&Vec<RespCertItem>>,
    ) -> WeaResult<Vec<FetchedCertificate>>;

    /// Tells whether the merchant acts through a service provider.
    fn is_sp(&self) -> bool;

    /// The path of an operation as the configuration shapes it.
    fn get_uri(&self, uri: &str, with_mchid: bool, with_sp: bool) -> String;

    /// Builds the signed request for `url`, drawing the time stamp and the
    /// nonce.
    fn build_request_builder(&self, url: &str, method: &str, body: &str) -> WeaResult<
        AuthenticatedRequest,
    >;

    /// Builds the signed request for `url` with the given time stamp and
    /// nonce.
    fn build_request_with(
        &self,
        url: &str,
        method: &str,
        body: &str,
        timestamp: &str,
        nonce: &str,
    ) -> WeaResult<AuthenticatedRequest>;

    /// Reads a response: checks its signature under the certificate of
    /// `record`, then hands out the body, or the error that the status stands
    /// for.
    fn interpret_response(
        &self,
        status: u16,
        headers: &Vec<(String, String)>,
        body: &str,
        record: &CertificateRecord,
    ) -> WeaResult<String>;

    /// Verifies a signature of the provider over `data` under a certificate.
    fn verify_signature(&self, data: Vec<&str>, signature: &str, certificate: &str) -> WeaResult<
        bool,
    >;

    /// Decrypts what the provider encrypted under the shared secret.
    fn decrypt_content(&self, nonce: &str, ciphertext: &str, associated_data: &str) -> WeaResult<
        String,
    >;

    /// Encrypts under the shared secret, as the provider does.
    fn encrypt_content(&self, nonce: &str, plaintext: &str, associated_data: &str) -> WeaResult<
        String,
    >;

    /// Checks a notification and decrypts its resource.
    fn notify(
        &self,
        nonce_str: &str,
        timestamp: &str,
        body: &str,
        signature: &str,
        serial: &str,
        record: &CertificateRecord,
        resource: Option<&RespResource>,
    ) -> WeaResult<String>;

    /// Decrypts the certificates of a listing.
    fn decrypt_certificates(&self, items: &Vec<RespCertItem>) -> WeaResult<Vec<FetchedCertificate>>;
}

impl BaseTrait for Payment<WechatConfig> {
    /// The error kind is `TradeType` for a way of payment on which no order
    /// can be placed.
    fn create_order(&self, trade_type: TradeType, data: ReqOrderBody) -> (r: WeaResult<
        Operation<ReqOrderBody>,
    >)
        ensures
            match r {
                Ok(op) => {
                    &&& order_path(trade_type) matches Some(path)
                    &&& op.uri@ == uri_text(self.config, path, false, false)
                    &&& op.method@ == "POST"@
                    &&& op.body == sent_order(self.config, data)
                },
                Err(err) => order_path(trade_type) is None && err.kind@ == "TradeType"@,
            },
    {
        let path = match trade_type {
            TradeType::JSAPI => "/v3/pay/transactions/jsapi",
            TradeType::NATIVE => "/v3/pay/transactions/native",
            TradeType::App => "/v3/pay/transactions/app",
            TradeType::MWEB => "/v3/pay/transactions/h5",
            _ => {
                return Err(WeaError::new("TradeType", String::from_str("trade type error")));
            },
        };
        let uri = self.get_uri(path, false, false);
        let mut body = data;
        if self.is_sp() {
            body.sp_appid = self.config.sp_appid.clone();
            body.sp_mchid = self.config.sp_mchid.clone();
            body.sub_appid = Some(self.config.app_id.clone());
            body.sub_mchid = Some(self.config.mchid.clone());
        } else {
            body.appid = Some(self.config.app_id.clone());
            body.mchid = Some(self.config.mchid.clone());
        }
        if body.notify_url.is_none() {
            body.notify_url = Some(self.config.notify_url.clone());
        }
        Ok(Operation { uri, method: String::from_str("POST"), body })
    }

    /// The result is the one that `order_result_with` makes for what was
    /// drawn: the seconds of the clock in decimal as time stamp, and for nonce
    /// the 32 hexadecimal digits of sixteen random bytes. The error kinds
    /// `SystemTime` and `Random` stand for a draw that failed.
    fn order_result(&self, trade_type: TradeType, response: CreateOrderResponse) -> (r: WeaResult<
        CreateOrderResult,
    >)
        ensures
            match r {
                Ok(result) => exists|time: nat, nonce: Seq<u8>|
                    {
                        &&& nonce.len() == 16
                        &&& #[trigger] drawn_pay_sign(self.config, trade_type, response, time, nonce)
                            matches Ok(signature)
                        &&& is_order_result(
                            self.config,
                            trade_type,
                            response,
                            decimal_text(time),
                            hex_text(nonce).take(32),
                            signature,
                            result,
                        )
                    },
                Err(err) => err.kind@ == "SystemTime"@ || err.kind@ == "Random"@ || exists|
                    time: nat,
                    nonce: Seq<u8>,
                |
                    {
                        &&& nonce.len() == 16
                        &&& #[trigger] drawn_pay_sign(self.config, trade_type, response, time, nonce)
                            == Err::<Option<Seq<char>>, Seq<char>>(err.kind@)
                    },
            },
    {
        let secs = match get_timestamp() {
            Ok(secs) => secs,
            Err(err) => { return Err(err); },
        };
        let timestamp = decimal_string(secs as u128);
        let nonce = match generate_random_string(32) {
            Ok(nonce) => nonce,
            Err(err) => { return Err(err); },
        };
        let r = self.order_result_with(trade_type, response, timestamp.as_str(), nonce.as_str());
        proof {
            let nonce_bytes = choose|bytes: Seq<u8>|
                bytes.len() == 16 && nonce@ == #[trigger] hex_text(bytes).take(32);
            let outcome = drawn_pay_sign(self.config, trade_type, response, secs as nat, nonce_bytes);
            if r is Ok {
                assert(outcome is Ok);
            } else {
                assert(outcome == Err::<Option<Seq<char>>, Seq<char>>(r->Err_0.kind@));
            }
        }
        r
    }

    /// For a payment from a page the signature covers the application, the
    /// time stamp, the nonce and `prepay_id=` with the prepayment; for a
    /// payment from an application it covers the prepayment itself. The other
    /// ways of payment keep the answer as it is. The error kind is
    /// `Serialization` where the answer lacks the prepayment that is to be
    /// signed.
    fn order_result_with(
        &self,
        trade_type: TradeType,
        response: CreateOrderResponse,
        timestamp: &str,
        nonce: &str,
    ) -> (r: WeaResult<CreateOrderResult>)
        ensures
            match r {
                Ok(result) => {
                    &&& pay_sign_outcome(self.config, trade_type, response, timestamp@, nonce@)
                        matches Ok(signature)
                    &&& is_order_result(
                        self.config,
                        trade_type,
                        response,
                        timestamp@,
                        nonce@,
                        signature,
                        result,
                    )
                },
                Err(err) => pay_sign_outcome(self.config, trade_type, response, timestamp@, nonce@)
                    == Err::<Option<Seq<char>>, Seq<char>>(err.kind@),
            },
    {
        match trade_type {
            TradeType::JSAPI => {
                let prepay_id = match &response.prepay_id {
                    Some(prepay_id) => prepay_id,
                    None => {
                        return Err(
                            WeaError::new("Serialization", String::from_str("prepay_id is none")),
                        );
                    },
                };
                let mut package = String::from_str("prepay_id=");
                package.append(prepay_id.as_str());
                let fields: Vec<&str> = vec![
                    self.config.app_id.as_str(),
                    timestamp,
                    nonce,
                    package.as_str(),
                ];
                assert(fields.deep_view() =~= seq![
                    self.config.app_id@,
                    timestamp@,
                    nonce@,
                    package@,
                ]);
                let pay_sign = sign(&fields, self.config.apiclient_key.as_str())?;
                Ok(
                    CreateOrderResult::JSAPI(
                        JsapiSignPackage {
                            app_id: self.config.app_id.clone(),
                            time_stamp: String::from_str(timestamp),
                            nonce_str: String::from_str(nonce),
                            package,
                            sign_type: String::from_str("RSA"),
                            pay_sign,
                        },
                    ),
                )
            },
            TradeType::App => {
                let prepay_id = match &response.prepay_id {
                    Some(prepay_id) => prepay_id.clone(),
                    None => {
                        return Err(
                            WeaError::new("Serialization", String::from_str("prepay_id is none")),
                        );
                    },
                };
                let fields: Vec<&str> = vec![
                    self.config.app_id.as_str(),
                    timestamp,
                    nonce,
                    prepay_id.as_str(),
                ];
                assert(fields.deep_view() =~= seq![
                    self.config.app_id@,
                    timestamp@,
                    nonce@,
                    prepay_id@,
                ]);
                let pay_sign = sign(&fields, self.config.apiclient_key.as_str())?;
                Ok(
                    CreateOrderResult::APP(
                        AppSignPackage {
                            app_id: self.config.app_id.clone(),
                            partner_id: self.config.mchid.clone(),
                            prepay_id,
                            package_value: String::from_str("Sign=WXPay"),
                            nonce_str: String::from_str(nonce),
                            time_stamp: String::from_str(timestamp),
                            sign: pay_sign,
                        },
                    ),
                )
            },
            _ => Ok(CreateOrderResult::Default(response)),
        }
    }

    fn query_order(&self, out_trade_no: &str) -> (op: Operation<()>)
        ensures
            op.uri@ == uri_text(
                self.config,
                "/v3/pay/transactions/out-trade-no/"@ + out_trade_no@,
                true,
                true,
            ),
            op.method@ == "GET"@,
    {
        let mut path = String::from_str("/v3/pay/transactions/out-trade-no/");
        path.append(out_trade_no);
        Operation {
            uri: self.get_uri(path.as_str(), true, true),
            method: String::from_str("GET"),
            body: (),
        }
    }

    fn query_order_by_transaction_id(&self, transaction_id: &str) -> (op: Operation<()>)
        ensures
            op.uri@ == uri_text(
                self.config,
                "/v3/pay/transactions/id/"@ + transaction_id@,
                true,
                true,
            ),
            op.method@ == "GET"@,
    {
        let mut path = String::from_str("/v3/pay/transactions/id/");
        path.append(transaction_id);
        Operation {
            uri: self.get_uri(path.as_str(), true, true),
            method: String::from_str("GET"),
            body: (),
        }
    }

    fn close_order(&self, out_trade_no: &str) -> (op: Operation<String>)
        ensures
            op.uri@ == uri_text(
                self.config,
                "/v3/pay/transactions/out-trade-no/"@ + out_trade_no@ + "/close"@,
                false,
                false,
            ),
            op.method@ == "POST"@,
            op.body@ == close_body_text(self.config),
    {
        let mut path = String::from_str("/v3/pay/transactions/out-trade-no/");
        path.append(out_trade_no);
        path.append("/close");
        let uri = self.get_uri(path.as_str(), false, false);
        let mut body = String::new();
        let mut named = false;
        match &self.config.sp_mchid {
            Some(sp_mchid) => {
                if self.config.sp_appid.is_some() {
                    body.append("{\"sp_mchid\":\"");
                    body.append(sp_mchid.as_str());
                    body.append("\",\"sub_mchid\":\"");
                    body.append(self.config.mchid.as_str());
                    body.append("\"}");
                    named = true;
                }
            },
            None => {},
        }
        if !named {
            body.append("{\"mchid\":\"");
            body.append(self.config.mchid.as_str());
            body.append("\"}");
        }
        Operation { uri, method: String::from_str("POST"), body }
    }

    fn download_cert(&self) -> (op: Operation<()>)
        ensures
            op.uri@ == uri_text(self.config, "/v3/certificates"@, false, false),
            op.method@ == "GET"@,
    {
        Operation {
            uri: self.get_uri("/v3/certificates", false, false),
            method: String::from_str("GET"),
            body: (),
        }
    }

    /// The error kind is `Status` where the status is neither 200 nor 204,
    /// with the body, or the status where the body is empty, as message;
    /// `Serialization` where the answer could not be read; else what
    /// decrypting the listing comes to.
    fn interpret_certificates(
        &self,
        status: u16,
        body: &str,
        items: Option<&Vec<RespCertItem>>,
    ) -> (r: WeaResult<Vec<FetchedCertificate>>)
        ensures
            fetched_outcome(r) == if !is_success(status) {
                Err("Status"@)
            } else {
                match items {
                    None => Err("Serialization"@),
                    Some(items) => listing_outcome(self.config, items@),
                }
            },
            !is_success(status) ==> (r matches Err(err) && err.message@ == status_message(
                status,
                body@,
            )),
    {
        if !(status == 200 || status == 204) {
            if body.unicode_len() == 0 {
                return Err(WeaError::new("Status", decimal_string(status as u128)));
            }
            return Err(WeaError::new("Status", String::from_str(body)));
        }
        match items {
            None => Err(WeaError::new("Serialization", String::from_str("listing not readable"))),
            Some(items) => self.decrypt_certificates(items),
        }
    }

    fn is_sp(&self) -> (sp: bool)
        ensures
            sp == service_provider(self.config),
    {
        self.config.sp_appid.is_some() && self.config.sp_mchid.is_some()
    }

    fn get_uri(&self, uri: &str, with_mchid: bool, with_sp: bool) -> (out: String)
        ensures
            out@ == uri_text(self.config, uri@, with_mchid, with_sp),
    {
        let sign = if contains(uri, "?") {
            "&"
        } else {
            "?"
        };
        match &self.config.sp_mchid {
            Some(sp_mchid) => {
                if self.config.sp_appid.is_some() {
                    let mut out = replace_all(uri, "/v3/pay/", "/v3/pay/partner/");
                    if with_sp {
                        out.append(sign);
                        out.append("sp_mchid=");
                        out.append(sp_mchid.as_str());
                    }
                    if with_mchid {
                        out.append(sign);
                        out.append("sub_mchid=");
                        out.append(self.config.mchid.as_str());
                    }
                    return out;
                }
            },
            None => {},
        }
        let mut out = String::from_str(uri);
        if with_mchid {
            out.append(sign);
            out.append("mchid=");
            out.append(self.config.mchid.as_str());
        }
        out
    }

    /// The request is the one that `build_request_with` makes for what was
    /// drawn: the seconds of the clock in decimal as time stamp, and for nonce
    /// the 32 hexadecimal digits of sixteen random bytes. Its Authorization
    /// carries the signature of the signed fields. The error kinds
    /// `SystemTime` and `Random` stand for a draw that failed.
    fn build_request_builder(&self, url: &str, method: &str, body: &str) -> (r: WeaResult<
        AuthenticatedRequest,
    >)
        ensures
            match r {
                Ok(request) => exists|time: nat, nonce: Seq<u8>|
                    {
                        &&& nonce.len() == 16
                        &&& #[trigger] drawn_request(self.config, url@, method@, body@, time, nonce)
                            == Ok::<RequestModel, Seq<char>>(request.model())
                        &&& carries_signature(
                            self.config,
                            request.model(),
                            signed_fields(
                                url@,
                                method@,
                                body@,
                                decimal_text(time),
                                hex_text(nonce).take(32),
                            ),
                            decimal_text(time),
                            hex_text(nonce).take(32),
                        )
                    },
                Err(err) => err.kind@ == "SystemTime"@ || err.kind@ == "Random"@ || exists|
                    time: nat,
                    nonce: Seq<u8>,
                |
                    {
                        &&& nonce.len() == 16
                        &&& #[trigger] drawn_request(self.config, url@, method@, body@, time, nonce)
                            == Err::<RequestModel, Seq<char>>(err.kind@)
                    },
            },
    {
        let secs = match get_timestamp() {
            Ok(secs) => secs,
            Err(err) => { return Err(err); },
        };
        let timestamp = decimal_string(secs as u128);
        let nonce = match generate_random_string(32) {
            Ok(nonce) => nonce,
            Err(err) => { return Err(err); },
        };
        let r = self.build_request_with(url, method, body, timestamp.as_str(), nonce.as_str());
        proof {
            let nonce_bytes = choose|bytes: Seq<u8>|
                bytes.len() == 16 && nonce@ == #[trigger] hex_text(bytes).take(32);
            let outcome = drawn_request(self.config, url@, method@, body@, secs as nat, nonce_bytes);
            assert(request_outcome(r) == outcome);
        }
        r
    }

    /// The request is exactly the one of the model, and its last header, the
    /// Authorization, carries the signature of the signed fields.
    fn build_request_with(
        &self,
        url: &str,
        method: &str,
        body: &str,
        timestamp: &str,
        nonce: &str,
    ) -> (r: WeaResult<AuthenticatedRequest>)
        ensures
            request_outcome(r) == built_request(
                self.config,
                url@,
                method@,
                body@,
                timestamp@,
                nonce@,
            ),
            r matches Ok(request) ==> carries_signature(
                self.config,
                request.model(),
                signed_fields(url@, method@, body@, timestamp@, nonce@),
                timestamp@,
                nonce@,
            ),
    {
        let full_url = match join_url(WECHAT_BASE_URL, url) {
            None => { return Err(WeaError::new("Url", String::from_str("parse url error"))); },
            Some(None) => { return Err(WeaError::new("Url", String::from_str("join url error"))); },
            Some(Some(full_url)) => full_url,
        };
        let fields: Vec<&str> = vec![method, url, timestamp, nonce, body];
        assert(fields.deep_view() =~= seq![method@, url@, timestamp@, nonce@, body@]);
        let signature = sign(&fields, self.config.apiclient_key.as_str())?;
        let serial = get_cert_serial(self.config.apiclient_cert.as_str().as_bytes())?;
        let authorization = match &self.config.sp_mchid {
            Some(sp_mchid) => {
                if self.config.sp_appid.is_some() {
                    authorization_string(
                        sp_mchid.as_str(),
                        nonce,
                        timestamp,
                        serial.as_str(),
                        signature.as_str(),
                    )
                } else {
                    authorization_string(
                        self.config.mchid.as_str(),
                        nonce,
                        timestamp,
                        serial.as_str(),
                        signature.as_str(),
                    )
                }
            },
            None => authorization_string(
                self.config.mchid.as_str(),
                nonce,
                timestamp,
                serial.as_str(),
                signature.as_str(),
            ),
        };
        let mut headers: Vec<(String, String)> = Vec::new();
        headers.push((String::from_str("Content-Type"), String::from_str("application/json")));
        headers.push((String::from_str("Accept"), String::from_str("application/json")));
        headers.push((String::from_str("User-Agent"), String::from_str(SDK_UA)));
        headers.push((String::from_str("Authorization"), authorization));
        assert(headers.deep_view() =~= request_headers(authorization@));
        proof {
            let signed = signed_fields(url@, method@, body@, timestamp@, nonce@);
            assert(fields.deep_view() =~= signed);
            assert(is_signature_of(signature@, signed, self.config.apiclient_key@));
            assert(headers.deep_view().last() == ("Authorization"@, authorization@));
        }
        Ok(
            AuthenticatedRequest {
                method: normalize_method(method),
                url: full_url,
                headers,
                body: attach_body(String::from_str(body)),
            },
        )
    }

    /// The error kind is `Verification` where the response lacks one of the
    /// headers that carry serial, time stamp, nonce and signature, or names
    /// another serial than `record` has, `SignatureMismatch` where the
    /// signature does not verify, and `Status` where the status is neither 200
    /// nor 204; the message of a `Status` error is the body, or the status
    /// where the body is empty.
    fn interpret_response(
        &self,
        status: u16,
        headers: &Vec<(String, String)>,
        body: &str,
        record: &CertificateRecord,
    ) -> (r: WeaResult<String>)
        ensures
            text_outcome(r) == response_outcome(*record, status, headers.deep_view(), body@),
            response_check(*record, headers.deep_view(), body@) is Ok && !is_success(status) ==> (r
                matches Err(err) && err.message@ == status_message(status, body@)),
    {
        match read_claim(
            headers,
            body,
            "Wechatpay-Serial",
            "Wechatpay-Timestamp",
            "Wechatpay-Nonce",
            "Wechatpay-Signature",
        ) {
            Some(claim) => {
                check_claim(record, claim)?;
            },
            None => {
                return Err(
                    WeaError::new("Verification", String::from_str("response lacks a signature header")),
                );
            },
        }
        if status == 200 || status == 204 {
            Ok(String::from_str(body))
        } else if body.unicode_len() == 0 {
            Err(WeaError::new("Status", decimal_string(status as u128)))
        } else {
            Err(WeaError::new("Status", String::from_str(body)))
        }
    }

    fn verify_signature(&self, data: Vec<&str>, signature: &str, certificate: &str) -> (r: WeaResult<
        bool,
    >)
        ensures
            flag_outcome(r) == verification_outcome(data.deep_view(), signature@, certificate@),
    {
        verify(&data, signature, certificate)
    }

    /// The ciphertext is read as base64 and decrypted with AES-256-GCM under
    /// the shared secret of the configuration. What decrypts is sixteen bytes,
    /// the tag, longer than its plaintext.
    fn decrypt_content(&self, nonce: &str, ciphertext: &str, associated_data: &str) -> (r: WeaResult<
        String,
    >)
        ensures
            text_outcome(r) == gcm_decryption_outcome(
                self.config.mch_key@,
                nonce@,
                ciphertext@,
                associated_data@,
            ),
            r matches Ok(text) ==> (base64_bytes(ciphertext@) matches Some(raw) && raw.len()
                == encode_utf8(text@).len() + 16),
    {
        gcm_decrypt(self.config.mch_key.as_str(), nonce, ciphertext, associated_data)
    }

    /// What was encrypted decrypts to itself under the same configuration,
    /// nonce and associated data.
    fn encrypt_content(&self, nonce: &str, plaintext: &str, associated_data: &str) -> (r: WeaResult<
        String,
    >)
        ensures
            text_outcome(r) == gcm_encryption_outcome(
                self.config.mch_key@,
                nonce@,
                plaintext@,
                associated_data@,
            ),
            r matches Ok(text) ==> gcm_decryption_outcome(
                self.config.mch_key@,
                nonce@,
                text@,
                associated_data@,
            ) == Ok::<Seq<char>, Seq<char>>(plaintext@),
    {
        gcm_encrypt(self.config.mch_key.as_str(), nonce, plaintext, associated_data)
    }

    /// The notification is rejected with the error kind `Verification` where
    /// `record` is not the one of `serial`, with `SignatureMismatch` where the
    /// signature over time stamp, nonce and body does not verify, with
    /// `Serialization` where the envelope could not be read, and with the
    /// error of the cipher where the resource does not decrypt.
    fn notify(
        &self,
        nonce_str: &str,
        timestamp: &str,
        body: &str,
        signature: &str,
        serial: &str,
        record: &CertificateRecord,
        resource: Option<&RespResource>,
    ) -> (r: WeaResult<String>)
        ensures
            text_outcome(r) == notification_outcome(
                self.config,
                *record,
                serial@,
                timestamp@,
                nonce_str@,
                body@,
                signature@,
                match resource {
                    Some(resource) => Some(*resource),
                    None => None,
                },
            ),
    {
        let claim = VerificationClaim {
            timestamp: String::from_str(timestamp),
            nonce: String::from_str(nonce_str),
            body: String::from_str(body),
            signature: String::from_str(signature),
            serial: String::from_str(serial),
        };
        check_claim(record, claim)?;
        match resource {
            None => Err(WeaError::new("Serialization", String::from_str("envelope not readable"))),
            Some(resource) => {
                proof {
                    reveal_strlit("");
                    assert(""@ =~= Seq::<char>::empty());
                }
                let associated: &str = match &resource.associated_data {
                    Some(data) => data.as_str(),
                    None => "",
                };
                self.decrypt_content(
                    resource.nonce.as_str(),
                    resource.ciphertext.as_str(),
                    associated,
                )
            },
        }
    }

    fn decrypt_certificates(&self, items: &Vec<RespCertItem>) -> (r: WeaResult<
        Vec<FetchedCertificate>,
    >)
        ensures
            fetched_outcome(r) == listing_outcome(self.config, items@),
    {
        if items.len() == 0 {
            return Err(
                WeaError::new("EmptyCertificateSet", String::from_str("certificates is empty")),
            );
        }
        let mut fetched: Vec<FetchedCertificate> = Vec::new();
        let mut i: usize = 0;
        assert(fetched_pairs(fetched@) =~= Seq::empty());
        while i < items.len()
            invariant
                i <= items.len(),
                decrypted_items(self.config, items@.take(i as int)) == Ok::<
                    Seq<(Seq<char>, Seq<char>)>,
                    Seq<char>,
                >(fetched_pairs(fetched@)),
            decreases items.len() - i,
        {
            proof {
                let now = items@.take(i + 1);
                assert(now.drop_last() =~= items@.take(i as int));
                assert(now.last() == items@[i as int]);
                assert(items@.take(items.len() as int) =~= items@);
            }
            let data = &items[i].encrypt_certificate;
            let pem = match self.decrypt_content(
                data.nonce.as_str(),
                data.ciphertext.as_str(),
                data.associated_data.as_str(),
            ) {
                Ok(pem) => pem,
                Err(err) => {
                    proof {
                        lemma_failure_stays(self.config, items@, i + 1);
                    }
                    return Err(err);
                },
            };
            let ghost before = fetched_pairs(fetched@);
            fetched.push(FetchedCertificate { serial: items[i].serial_no.clone(), pem });
            assert(fetched_pairs(fetched@) =~= before.push((items@[i as int].serial_no@, pem@)));
            i += 1;
        }
        assert(items@.take(i as int) =~= items@);
        Ok(fetched)
    }
}

/// Once a certificate of the listing fails to decrypt, the whole listing
/// fails with its error, whatever follows it.
pub proof fn lemma_failure_stays(config: WechatConfig, items: Seq<RespCertItem>, upto: int)
    requires
        0 <= upto <= items.len(),
        decrypted_items(config, items.take(upto)) is Err,
    ensures
        decrypted_items(config, items) == decrypted_items(config, items.take(upto)),
    decreases items.len() - upto,
{
    if upto < items.len() {
        assert(items.take(upto + 1).drop_last() =~= items.take(upto));
        lemma_failure_stays(config, items, upto + 1);
    } else {
        assert(items.take(upto) =~= items);
    }
}

/// Checks a claim against the record at hand: the record must be the one of
/// the serial that the claim names, and the signature must verify over time
/// stamp, nonce and body under the record's certificate.
pub fn check_claim(record: &CertificateRecord, claim: VerificationClaim) -> (r: Result<(), WeaError>)
    ensures
        match r {
            Ok(_) => claim_check(
                *record,
                claim.serial@,
                claim.timestamp@,
                claim.nonce@,
                claim.body@,
                claim.signature@,
            ) is Ok,
            Err(err) => claim_check(
                *record,
                claim.serial@,
                claim.timestamp@,
                claim.nonce@,
                claim.body@,
                claim.signature@,
            ) == Err::<(), Seq<char>>(err.kind@),
        },
{
    if !same_text(record.serial.as_str(), claim.serial.as_str()) {
        return Err(WeaError::new("Verification", String::from_str("serial is not match")));
    }
    let valid = claim.verify_under(record.pem.as_str())?;
    if !valid {
        return Err(WeaError::new("SignatureMismatch", String::from_str("signature verify error")));
    }
    Ok(())
}

/// A built request verifies under the key that matches: the signature that
/// its Authorization carries verifies over the signed fields under every
/// public key that matches the private key of the configuration.
pub proof fn lemma_built_request_verifies(
    config: WechatConfig,
    request: RequestModel,
    fields: Seq<Seq<char>>,
    timestamp: Seq<char>,
    nonce: Seq<char>,
    public_key: Seq<char>,
)
    requires
        carries_signature(config, request, fields, timestamp, nonce),
        accepts_signatures_of(public_key, config.apiclient_key@),
        fits(public_key),
    ensures
        exists|signature: Seq<char>|
            {
                &&& serial_identity_outcome(encode_utf8(config.apiclient_cert@)) matches Ok(serial)
                &&& request.headers.last() == (
                    "Authorization"@,
                    authorization_text(signing_merchant(config), nonce, timestamp, serial, signature),
                )
                &&& #[trigger] verification_outcome(fields, signature, public_key) == Ok::<
                    bool,
                    Seq<char>,
                >(true)
            },
{
    let signature = choose|signature: Seq<char>|
        {
            &&& #[trigger] is_signature_of(signature, fields, config.apiclient_key@)
            &&& serial_identity_outcome(encode_utf8(config.apiclient_cert@)) matches Ok(serial)
            &&& request.headers.len() > 0
            &&& request.headers.last() == (
                "Authorization"@,
                authorization_text(signing_merchant(config), nonce, timestamp, serial, signature),
            )
        };
    lemma_signature_round_trip(fields, config.apiclient_key@, public_key, signature);
}

} // verus!
