//! Trust layer of a payment client for two providers: request signing,
//! response and notification verification, payload encryption and
//! certificate identities.
//!
//! The crate performs no input or output. Key material, certificates and
//! cached records are handed to it as values, and what it builds (requests,
//! verdicts, plaintexts) is handed back as values.

use vstd::prelude::*;

pub mod alipay;
pub mod cache;
pub mod certificate;
pub mod cipher;
pub mod encoding;
pub mod error;
pub mod request;
pub mod signature;
pub mod text;
pub mod utils;
pub mod wechat;

verus! {

/// The result of every fallible operation of the crate.
pub type WeaResult<T> = Result<T, error::WeaError>;

/// The user agent that requests announce.
pub const SDK_UA: &'static str = "Weapay rust sdk/0.1.0";

/// Credentials of a merchant at the certificate-based provider.
///
/// With both `sp_appid` and `sp_mchid` set the merchant acts through a
/// service provider; `app_id` and `mchid` are then those of the sub-merchant.
#[derive(Clone, Debug, Default)]
pub struct WechatConfig {
    /// Application identifier of the service provider.
    pub sp_appid: Option<String>,
    /// Merchant identifier of the service provider.
    pub sp_mchid: Option<String>,
    /// Application identifier.
    pub app_id: String,
    /// Merchant identifier.
    pub mchid: String,
    /// Shared secret of 32 bytes that protects notification resources.
    pub mch_key: String,
    /// Private key of the merchant, as PEM text or base64 of DER.
    pub apiclient_key: String,
    /// Certificate of the merchant, as PEM text.
    pub apiclient_cert: String,
    /// Address that notifications are sent to.
    pub notify_url: String,
}

/// Credentials of an application at the shared-secret provider.
///
/// With `alipay_root_cert` set the application works in certificate mode,
/// which also needs `app_public_cert`.
#[derive(Clone, Debug, Default)]
pub struct AlipayConfig {
    /// Application identifier.
    pub app_id: String,
    /// Private key of the application, as PEM text or base64 of DER.
    pub app_private_key: String,
    /// Certificate of the application, as PEM text.
    pub app_public_cert: Option<String>,
    /// Public key of the provider: a PEM certificate or base64 of a DER key.
    pub alipay_public_cert: String,
    /// Bundle of the provider's root certificates, as PEM text.
    pub alipay_root_cert: Option<String>,
    /// Base64 of the 16-byte key that encrypts bodies.
    pub mch_key: Option<String>,
    /// Address that notifications are sent to.
    pub notify_url: Option<String>,
    /// Whether requests go to the sandbox.
    pub is_sandbox: Option<bool>,
}

/// A client of one provider, which its configuration selects.
pub struct Payment<T> {
    pub config: T,
}

impl<T> Payment<T> where T: std::fmt::Debug + Clone + Default {
    /// Makes a client that holds `config` for its lifetime.
    pub fn new(config: T) -> (payment: Self)
        ensures
            payment.config == config,
    {
        Payment { config }
    }
}

} // verus!
