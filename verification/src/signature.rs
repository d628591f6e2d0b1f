//! RSA-SHA256 signatures over canonical strings.

use crate::certificate::{asks_passphrase, pem_asks_passphrase};
use crate::encoding::{
    base64_bytes, base64_decode, base64_encode, base64_text, fits, fits_openssl, stack_text,
    BASE64_MAX_INPUT, OPENSSL_MAX_LEN,
};
use crate::error::{flag_outcome, text_outcome, WeaError};
use crate::text::{contains, has_infix, join_strs, joined, occurs_at, starts_with};
use openssl::error::ErrorStack;
use openssl::hash::MessageDigest;
use openssl::pkey::PKey;
use openssl::rsa::Rsa;
use openssl::sign::{Signer, Verifier};
use openssl::x509::X509;
use vstd::prelude::*;
use vstd::string::StringExecFns;
use vstd::utf8::encode_utf8;

verus! {

/// The string that is signed for an ordered list of fields: the fields joined
/// by line feeds, with one more line feed at the end.
pub open spec fn canonical_text(fields: Seq<Seq<char>>) -> Seq<char> {
    joined(fields, seq!['\n']) + seq!['\n']
}

/// Builds the canonical string of `fields`. Nothing is trimmed or folded.
pub fn canonical_string(fields: &Vec<&str>) -> (out: String)
    ensures
        out@ == canonical_text(fields.deep_view()),
{
    proof {
        reveal_strlit("\n");
        assert("\n"@ =~= seq!['\n']);
    }
    let mut out = join_strs(fields, "\n");
    out.append("\n");
    out
}

/// The RSA-SHA256 signature that OpenSSL makes over `msg` with the private key
/// in the PEM text `pem`: `None` where the key does not load, `Some(None)`
/// where the signer fails.
pub uninterp spec fn rsa_pem_signature(pem: Seq<u8>, msg: Seq<u8>) -> Option<Option<Seq<u8>>>;

/// The same for a private key given in DER form.
pub uninterp spec fn rsa_der_signature(der: Seq<u8>, msg: Seq<u8>) -> Option<Option<Seq<u8>>>;

/// Whether OpenSSL accepts `sig` as RSA-SHA256 signature over `msg` under the
/// public key of the PEM certificate `cert`: `None` where the certificate or
/// its key does not load, `Some(None)` where the verifier fails.
pub uninterp spec fn rsa_cert_verdict(cert: Seq<u8>, msg: Seq<u8>, sig: Seq<u8>) -> Option<
    Option<bool>,
>;

/// The same for a bare RSA public key given in DER form.
pub uninterp spec fn rsa_der_verdict(der: Seq<u8>, msg: Seq<u8>, sig: Seq<u8>) -> Option<
    Option<bool>,
>;

/// Signs with a PEM private key: `Rsa::private_key_from_pem_passphrase` with
/// the empty passphrase, `PKey::from_rsa`, then `Signer::new` with SHA-256,
/// `update` and `sign_to_vec`.
///
/// Trusted: the outcome depends on the key text and the message alone. The
/// outer error is a key that did not load, the inner one a signer that
/// failed. With the passphrase given, OpenSSL asks for none: an encrypted key
/// does not load. PEM texts longer than a C integer can count are excluded,
/// since the outside reader panics on them.
#[verifier::external_body]
pub(crate) fn rsa_sign_pem(pem: &[u8], msg: &[u8]) -> (r: Result<
    Result<Vec<u8>, ErrorStack>,
    ErrorStack,
>)
    requires
        pem@.len() <= OPENSSL_MAX_LEN,
    ensures
        match r {
            Err(_) => rsa_pem_signature(pem@, msg@) is None,
            Ok(Err(_)) => rsa_pem_signature(pem@, msg@) == Some(None::<Seq<u8>>),
            Ok(Ok(sig)) => rsa_pem_signature(pem@, msg@) == Some(Some(sig@)),
        },
{
    let key = PKey::from_rsa(Rsa::private_key_from_pem_passphrase(pem, &[])?)?;
    Ok((|| {
        let mut signer = Signer::new(MessageDigest::sha256(), &key)?;
        signer.update(msg)?;
        signer.sign_to_vec()
    })())
}

/// Signs with a DER private key: `Rsa::private_key_from_der`,
/// `PKey::from_rsa`, then `Signer::new` with SHA-256, `update` and
/// `sign_to_vec`.
///
/// Trusted: as for the PEM form.
#[verifier::external_body]
pub(crate) fn rsa_sign_der(der: &[u8], msg: &[u8]) -> (r: Result<
    Result<Vec<u8>, ErrorStack>,
    ErrorStack,
>)
    ensures
        match r {
            Err(_) => rsa_der_signature(der@, msg@) is None,
            Ok(Err(_)) => rsa_der_signature(der@, msg@) == Some(None::<Seq<u8>>),
            Ok(Ok(sig)) => rsa_der_signature(der@, msg@) == Some(Some(sig@)),
        },
{
    let key = PKey::from_rsa(Rsa::private_key_from_der(der)?)?;
    Ok((|| {
        let mut signer = Signer::new(MessageDigest::sha256(), &key)?;
        signer.update(msg)?;
        signer.sign_to_vec()
    })())
}

/// Verifies under the key of a PEM certificate: `X509::from_pem`,
/// `X509::public_key`, then `Verifier::new` with SHA-256, `update` and
/// `verify`.
///
/// Trusted: the outcome depends on the certificate text, the message and the
/// signature alone. A signature that does not match is the verdict `false`,
/// not an error. Certificate texts longer than a C integer can count are
/// excluded, since the outside reader panics on them, and so are texts that
/// say they are encrypted, since it would ask for their passphrase at the
/// terminal.
#[verifier::external_body]
pub(crate) fn rsa_verify_cert(cert: &[u8], msg: &[u8], sig: &[u8]) -> (r: Result<
    Result<bool, ErrorStack>,
    ErrorStack,
>)
    requires
        cert@.len() <= OPENSSL_MAX_LEN,
        !asks_passphrase(cert@),
    ensures
        match r {
            Err(_) => rsa_cert_verdict(cert@, msg@, sig@) is None,
            Ok(Err(_)) => rsa_cert_verdict(cert@, msg@, sig@) == Some(None::<bool>),
            Ok(Ok(valid)) => rsa_cert_verdict(cert@, msg@, sig@) == Some(Some(valid)),
        },
{
    let key = X509::from_pem(cert)?.public_key()?;
    Ok((|| {
        let mut verifier = Verifier::new(MessageDigest::sha256(), &key)?;
        verifier.update(msg)?;
        verifier.verify(sig)
    })())
}

/// Verifies under a bare DER public key: `Rsa::public_key_from_der`,
/// `PKey::from_rsa`, then `Verifier::new` with SHA-256, `update` and `verify`.
///
/// Trusted: as for the certificate form.
#[verifier::external_body]
pub(crate) fn rsa_verify_der(der: &[u8], msg: &[u8], sig: &[u8]) -> (r: Result<
    Result<bool, ErrorStack>,
    ErrorStack,
>)
    ensures
        match r {
            Err(_) => rsa_der_verdict(der@, msg@, sig@) is None,
            Ok(Err(_)) => rsa_der_verdict(der@, msg@, sig@) == Some(None::<bool>),
            Ok(Ok(valid)) => rsa_der_verdict(der@, msg@, sig@) == Some(Some(valid)),
        },
{
    let key = PKey::from_rsa(Rsa::public_key_from_der(der)?)?;
    Ok((|| {
        let mut verifier = Verifier::new(MessageDigest::sha256(), &key)?;
        verifier.update(msg)?;
        verifier.verify(sig)
    })())
}

/// What the outside signer returns for `fields` under the key material `key`:
/// `None` where the key does not load, `Some(None)` where the signer fails.
/// Key material that begins with a PEM header is read as PEM, any other as
/// base64 of DER.
pub open spec fn raw_signature(fields: Seq<Seq<char>>, key: Seq<char>) -> Option<Option<Seq<u8>>> {
    let msg = encode_utf8(canonical_text(fields));
    if occurs_at(key, "-----BEGIN"@, 0) {
        rsa_pem_signature(encode_utf8(key), msg)
    } else {
        match base64_bytes(key) {
            None => None,
            Some(der) => rsa_der_signature(der, msg),
        }
    }
}

/// What signing `fields` with the key material `key` comes to: the base64
/// text of the raw signature, or the kind of the error.
pub open spec fn signature_outcome(fields: Seq<Seq<char>>, key: Seq<char>) -> Result<
    Seq<char>,
    Seq<char>,
> {
    if !fits(key) {
        Err("TooLong"@)
    } else {
        match raw_signature(fields, key) {
            None => Err("KeyLoad"@),
            Some(None) => Err("SignFailure"@),
            Some(Some(sig)) => if sig.len() <= BASE64_MAX_INPUT {
                Ok(base64_text(sig))
            } else {
                Err("SignFailure"@)
            },
        }
    }
}

/// Whether `text` is the signature that signing `fields` with `key` gives:
/// the base64 text of the raw signature, which decodes to it again.
pub open spec fn is_signature_of(text: Seq<char>, fields: Seq<Seq<char>>, key: Seq<char>) -> bool {
    &&& signature_outcome(fields, key) == Ok::<Seq<char>, Seq<char>>(text)
    &&& fits(text)
    &&& Some(base64_bytes(text)) == raw_signature(fields, key)
}

fn finish_signature(
    raw: Result<Result<Vec<u8>, ErrorStack>, ErrorStack>,
    Ghost(fields): Ghost<Seq<Seq<char>>>,
    Ghost(key): Ghost<Seq<char>>,
) -> (r: Result<String, WeaError>)
    requires
        fits(key),
        raw_signature(fields, key) == match raw {
            Err(_) => None,
            Ok(Err(_)) => Some(None),
            Ok(Ok(sig)) => Some(Some(sig@)),
        },
    ensures
        text_outcome(r) == signature_outcome(fields, key),
        r matches Ok(text) ==> is_signature_of(text@, fields, key),
{
    match raw {
        Err(stack) => Err(WeaError::new("KeyLoad", stack_text(&stack))),
        Ok(Err(stack)) => Err(WeaError::new("SignFailure", stack_text(&stack))),
        Ok(Ok(sig)) => {
            if sig.len() <= BASE64_MAX_INPUT {
                Ok(base64_encode(sig.as_slice()))
            } else {
                Err(WeaError::new("SignFailure", String::from_str("signature too long")))
            }
        },
    }
}

/// Signs the canonical string of `fields` with RSA-SHA256 and returns the
/// signature in base64.
///
/// The error kind is `TooLong` where the key material is longer than OpenSSL
/// takes, `KeyLoad` where it cannot be read and `SignFailure` where the signer
/// fails. The text returned decodes to the raw signature that the signer
/// made, so that a verifier is handed exactly what was signed.
pub fn sign(fields: &Vec<&str>, private_key: &str) -> (r: Result<String, WeaError>)
    ensures
        text_outcome(r) == signature_outcome(fields.deep_view(), private_key@),
        r matches Ok(text) ==> is_signature_of(text@, fields.deep_view(), private_key@),
{
    if !fits_openssl(private_key) {
        return Err(WeaError::new("TooLong", String::from_str("key material too long")));
    }
    let message = canonical_string(fields);
    if starts_with(private_key, "-----BEGIN") {
        finish_signature(
            rsa_sign_pem(private_key.as_bytes(), message.as_str().as_bytes()),
            Ghost(fields.deep_view()),
            Ghost(private_key@),
        )
    } else {
        match base64_decode(private_key) {
            Err(stack) => Err(WeaError::new("KeyLoad", stack_text(&stack))),
            Ok(der) => finish_signature(
                rsa_sign_der(der.as_slice(), message.as_str().as_bytes()),
                Ghost(fields.deep_view()),
                Ghost(private_key@),
            ),
        }
    }
}

/// The verdict of a verifier, or the kind of the error that stands for the
/// missing one.
pub open spec fn verdict_outcome(raw: Option<Option<bool>>) -> Result<bool, Seq<char>> {
    match raw {
        None => Err("KeyLoad"@),
        Some(None) => Err("VerifyFailure"@),
        Some(Some(valid)) => Ok(valid),
    }
}

/// What the outside verifier says of the raw signature `sig` over `fields`
/// under the key material `key`: `None` where the key does not load,
/// `Some(None)` where the verifier fails. Key material that holds a PEM
/// certificate block is read as certificate, any other as base64 of a DER
/// public key. A certificate that says it is encrypted does not load.
pub open spec fn raw_verdict(fields: Seq<Seq<char>>, sig: Seq<u8>, key: Seq<char>) -> Option<
    Option<bool>,
> {
    let msg = encode_utf8(canonical_text(fields));
    if has_infix(key, "-----BEGIN CERTIFICATE-----"@) {
        if asks_passphrase(encode_utf8(key)) {
            None
        } else {
            rsa_cert_verdict(encode_utf8(key), msg, sig)
        }
    } else {
        match base64_bytes(key) {
            None => None,
            Some(der) => rsa_der_verdict(der, msg, sig),
        }
    }
}

/// What verifying `signature` over `fields` under the key material `key`
/// comes to. The signature is decoded before the key is loaded.
pub open spec fn verification_outcome(
    fields: Seq<Seq<char>>,
    signature: Seq<char>,
    key: Seq<char>,
) -> Result<bool, Seq<char>> {
    if !fits(signature) || !fits(key) {
        Err("TooLong"@)
    } else {
        match base64_bytes(signature) {
            None => Err("Base64"@),
            Some(sig) => verdict_outcome(raw_verdict(fields, sig, key)),
        }
    }
}

fn finish_verdict(raw: Result<Result<bool, ErrorStack>, ErrorStack>) -> (r: Result<bool, WeaError>)
    ensures
        flag_outcome(r) == verdict_outcome(
            match raw {
                Err(_) => None,
                Ok(Err(_)) => Some(None),
                Ok(Ok(valid)) => Some(Some(valid)),
            },
        ),
{
    match raw {
        Err(stack) => Err(WeaError::new("KeyLoad", stack_text(&stack))),
        Ok(Err(stack)) => Err(WeaError::new("VerifyFailure", stack_text(&stack))),
        Ok(Ok(valid)) => Ok(valid),
    }
}

/// Verifies the base64 signature `signature` over the canonical string of
/// `fields` with RSA-SHA256.
///
/// A signature that does not match gives `Ok(false)`. The error kind is
/// `TooLong` where signature or key material is longer than OpenSSL takes,
/// `Base64` where the signature is no base64 text, `KeyLoad` where the key
/// material cannot be read and `VerifyFailure` where the verifier itself
/// fails.
pub fn verify(fields: &Vec<&str>, signature: &str, public_key: &str) -> (r: Result<bool, WeaError>)
    ensures
        flag_outcome(r) == verification_outcome(fields.deep_view(), signature@, public_key@),
{
    if !fits_openssl(signature) || !fits_openssl(public_key) {
        return Err(WeaError::new("TooLong", String::from_str("signature or key too long")));
    }
    let message = canonical_string(fields);
    let sig = match base64_decode(signature) {
        Err(stack) => { return Err(WeaError::new("Base64", stack_text(&stack))); },
        Ok(sig) => sig,
    };
    if contains(public_key, "-----BEGIN CERTIFICATE-----") {
        if pem_asks_passphrase(public_key.as_bytes()) {
            return Err(WeaError::new("KeyLoad", String::from_str("certificate is encrypted")));
        }
        finish_verdict(
            rsa_verify_cert(public_key.as_bytes(), message.as_str().as_bytes(), sig.as_slice()),
        )
    } else {
        match base64_decode(public_key) {
            Err(stack) => Err(WeaError::new("KeyLoad", stack_text(&stack))),
            Ok(der) => finish_verdict(
                rsa_verify_der(der.as_slice(), message.as_str().as_bytes(), sig.as_slice()),
            ),
        }
    }
}

/// Whether the key material `public_key` matches `private_key`: whatever
/// fields are signed with the one, the outside verifier accepts the raw
/// signature under the other.
pub open spec fn accepts_signatures_of(public_key: Seq<char>, private_key: Seq<char>) -> bool {
    forall|fields: Seq<Seq<char>>| #[trigger]
        raw_signature(fields, private_key) matches Some(Some(sig)) ==> raw_verdict(
            fields,
            sig,
            public_key,
        ) == Some(Some(true))
}

/// A signature verifies under the key that matches: where `signature` is
/// what signing `fields` with `private_key` gives, and `public_key` matches
/// `private_key`, verifying `signature` over the same fields gives `true`.
/// Signing and verifying build the same canonical string, and the base64
/// text is decoded to the very bytes that were signed.
pub proof fn lemma_signature_round_trip(
    fields: Seq<Seq<char>>,
    private_key: Seq<char>,
    public_key: Seq<char>,
    signature: Seq<char>,
)
    requires
        is_signature_of(signature, fields, private_key),
        accepts_signatures_of(public_key, private_key),
        fits(public_key),
    ensures
        verification_outcome(fields, signature, public_key) == Ok::<bool, Seq<char>>(true),
{
}

} // verus!
