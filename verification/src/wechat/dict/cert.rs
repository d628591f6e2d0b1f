//! Data of the certificate listing.

use vstd::prelude::*;

verus! {

/// Listing of the provider's certificates.
#[derive(Clone, Debug, Default)]
pub struct RespCert {
    pub data: Vec<RespCertItem>,
}

/// One certificate of the listing, still encrypted.
#[derive(Clone, Debug, Default)]
pub struct RespCertItem {
    pub serial_no: String,
    pub effective_time: Option<String>,
    pub expire_time: Option<String>,
    pub encrypt_certificate: CertData,
}

/// Encrypted certificate with what is needed to decrypt it.
#[derive(Clone, Debug, Default)]
pub struct CertData {
    pub algorithm: String,
    pub nonce: String,
    pub associated_data: String,
    pub ciphertext: String,
}

} // verus!
