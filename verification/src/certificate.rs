//! Identities of X.509 certificates: the serial number in hexadecimal, and
//! the digest of issuer and serial number.

use crate::encoding::{
    hex_encode, hex_text, is_lower_hex, lemma_hex_text_shape, stack_text, OPENSSL_MAX_LEN,
};
use crate::error::{text_outcome, WeaError};
use crate::text::{ascii_upper, join_strings, joined, segments, split_after, upper_char};
use openssl::error::ErrorStack;
use openssl::hash::MessageDigest;
use openssl::x509::X509;
use vstd::prelude::*;
use vstd::string::StringExecFns;
use vstd::utf8::encode_utf8;

verus! {

/// The bytes of `Proc-Type:`, the header by which a PEM text says that it is
/// encrypted. OpenSSL asks at the terminal for the passphrase of such a
/// text, so none is ever handed to its PEM reader.
pub open spec fn passphrase_mark() -> Seq<u8> {
    seq![80u8, 114u8, 111u8, 99u8, 45u8, 84u8, 121u8, 112u8, 101u8, 58u8]
}

/// Whether the mark stands in `pem` at position `at`.
pub open spec fn mark_at(pem: Seq<u8>, at: int) -> bool {
    0 <= at && at + 10 <= pem.len() && pem.subrange(at, at + 10) == passphrase_mark()
}

/// Whether `pem` says that it is encrypted.
pub open spec fn asks_passphrase(pem: Seq<u8>) -> bool {
    exists|at: int| mark_at(pem, at)
}

/// Tells whether `pem` says that it is encrypted.
pub fn pem_asks_passphrase(pem: &[u8]) -> (asks: bool)
    ensures
        asks == asks_passphrase(pem@),
{
    let mark: Vec<u8> = vec![80u8, 114u8, 111u8, 99u8, 45u8, 84u8, 121u8, 112u8, 101u8, 58u8];
    assert(mark@ =~= passphrase_mark());
    if pem.len() < 10 {
        return false;
    }
    let last: usize = pem.len() - 10;
    let mut at: usize = 0;
    loop
        invariant
            at <= last,
            last == pem.len() - 10,
            mark@ == passphrase_mark(),
            forall|k: int| 0 <= k < at ==> !mark_at(pem@, k),
        decreases last - at,
    {
        let mut j: usize = 0;
        while j < 10 && pem[at + j] == mark[j]
            invariant
                j <= 10,
                at + 10 <= pem.len(),
                mark@ == passphrase_mark(),
                forall|k: int| 0 <= k < j ==> pem@[at + k] == mark@[k],
            decreases 10 - j,
        {
            j += 1;
        }
        if j == 10 {
            assert(pem@.subrange(at as int, at + 10) =~= passphrase_mark());
            assert(mark_at(pem@, at as int));
            return true;
        }
        assert(!mark_at(pem@, at as int)) by {
            assert(pem@.subrange(at as int, at + 10)[j as int] == pem@[at + j]);
        }
        if at == last {
            return false;
        }
        at += 1;
    }
}

/// The entries of the issuer name of the PEM certificate `pem`, each as short
/// name and value, in the order of the certificate; `None` where OpenSSL
/// cannot read them.
pub uninterp spec fn x509_issuer(pem: Seq<u8>) -> Option<Seq<(Seq<char>, Seq<char>)>>;

/// The serial number of the PEM certificate `pem` in decimal, as OpenSSL
/// prints it; `None` where it cannot be read.
pub uninterp spec fn x509_serial_decimal(pem: Seq<u8>) -> Option<Seq<char>>;

/// The serial number, in hexadecimal as OpenSSL prints it, of the first
/// certificate of the PEM text `pem`: `None` where the text cannot be read,
/// `Some(None)` where it holds no certificate.
pub uninterp spec fn x509_first_serial_hex(pem: Seq<u8>) -> Option<Option<Seq<char>>>;

/// The number by which OpenSSL knows the signature algorithm of the PEM
/// certificate `pem`; `None` where the certificate cannot be read.
pub uninterp spec fn x509_signature_nid(pem: Seq<u8>) -> Option<i32>;

/// The MD5 digest that OpenSSL computes of `data`; `None` where it fails.
pub uninterp spec fn md5_bytes(data: Seq<u8>) -> Option<Seq<u8>>;

/// Reads the issuer of a certificate: `X509::from_pem`, `issuer_name`,
/// `entries`, and of each entry `object().nid().short_name()` and
/// `data().as_utf8()`.
///
/// Trusted: the outcome depends on the certificate text alone. Texts longer
/// than a C integer can count are excluded, since the outside reader panics on
/// them, and so are texts that say they are encrypted, since it would ask for
/// their passphrase at the terminal.
#[verifier::external_body]
#[allow(deprecated)]
pub(crate) fn read_issuer(pem: &[u8]) -> (r: Result<Vec<(String, String)>, ErrorStack>)
    requires
        pem@.len() <= OPENSSL_MAX_LEN,
        !asks_passphrase(pem@),
    ensures
        match r {
            Ok(entries) => x509_issuer(pem@) == Some(entries.deep_view()),
            Err(_) => x509_issuer(pem@) is None,
        },
{
    let cert = X509::from_pem(pem)?;
    cert.issuer_name().entries().map(
        |entry|
            Ok(
                (
                    entry.object().nid().short_name()?.to_string(),
                    entry.data().as_utf8()?.to_string(),
                ),
            ),
    ).collect()
}

/// Reads the serial number of a certificate in decimal: `X509::from_pem`,
/// `serial_number`, `to_bn` and `to_dec_str`.
///
/// Trusted: as for the issuer.
#[verifier::external_body]
pub(crate) fn read_serial_decimal(pem: &[u8]) -> (r: Result<String, ErrorStack>)
    requires
        pem@.len() <= OPENSSL_MAX_LEN,
        !asks_passphrase(pem@),
    ensures
        match r {
            Ok(serial) => x509_serial_decimal(pem@) == Some(serial@),
            Err(_) => x509_serial_decimal(pem@) is None,
        },
{
    Ok(X509::from_pem(pem)?.serial_number().to_bn()?.to_dec_str()?.to_string())
}

/// Reads the serial number of the first certificate of a PEM text in
/// hexadecimal: `X509::stack_from_pem`, then `serial_number`, `to_bn` and
/// `to_hex_str`.
///
/// Trusted: as for the issuer; a text without any certificate gives
/// `Ok(None)`.
#[verifier::external_body]
pub(crate) fn read_first_serial_hex(pem: &[u8]) -> (r: Result<Option<String>, ErrorStack>)
    requires
        pem@.len() <= OPENSSL_MAX_LEN,
        !asks_passphrase(pem@),
    ensures
        match r {
            Ok(Some(serial)) => x509_first_serial_hex(pem@) == Some(Some(serial@)),
            Ok(None) => x509_first_serial_hex(pem@) == Some(None::<Seq<char>>),
            Err(_) => x509_first_serial_hex(pem@) is None,
        },
{
    let certs = X509::stack_from_pem(pem)?;
    certs.first().map(|cert| Ok(cert.serial_number().to_bn()?.to_hex_str()?.to_string())).transpose()
}

/// Reads the signature algorithm of a certificate: `X509::from_pem`,
/// `signature_algorithm`, `object`, `nid` and `as_raw`.
///
/// Trusted: as for the issuer.
#[verifier::external_body]
pub(crate) fn read_signature_nid(pem: &[u8]) -> (r: Result<i32, ErrorStack>)
    requires
        pem@.len() <= OPENSSL_MAX_LEN,
        !asks_passphrase(pem@),
    ensures
        match r {
            Ok(nid) => x509_signature_nid(pem@) == Some(nid),
            Err(_) => x509_signature_nid(pem@) is None,
        },
{
    Ok(X509::from_pem(pem)?.signature_algorithm().object().nid().as_raw())
}

/// Calls `openssl::hash::hash` with MD5.
///
/// Trusted: the outcome depends on the data alone, and an MD5 digest holds
/// sixteen bytes.
#[verifier::external_body]
pub(crate) fn md5_digest(data: &[u8]) -> (r: Result<Vec<u8>, ErrorStack>)
    ensures
        match r {
            Ok(digest) => md5_bytes(data@) == Some(digest@),
            Err(_) => md5_bytes(data@) is None,
        },
        r matches Ok(digest) ==> digest@.len() == 16,
{
    openssl::hash::hash(MessageDigest::md5(), data).map(|digest| digest.to_vec())
}

/// The number OpenSSL gives to SHA-256 with RSA encryption.
pub const NID_SHA256_WITH_RSA: i32 = 668;

/// The number OpenSSL gives to SHA-1 with RSA encryption.
pub const NID_SHA1_WITH_RSA: i32 = 65;

/// Tells whether a signature algorithm is one of the two that count for the
/// identity of a bundle: SHA-256 or SHA-1 with RSA encryption.
pub fn is_rsa_signed(nid: i32) -> (counts: bool)
    ensures
        counts == (nid == NID_SHA256_WITH_RSA || nid == NID_SHA1_WITH_RSA),
{
    nid == NID_SHA256_WITH_RSA || nid == NID_SHA1_WITH_RSA
}

/// One issuer entry as `shortname=value`.
pub open spec fn entry_text(entry: (Seq<char>, Seq<char>)) -> Seq<char> {
    entry.0 + seq!['='] + entry.1
}

/// The issuer entries from last to first, each as `shortname=value`, joined by
/// commas.
pub open spec fn issuer_summary(entries: Seq<(Seq<char>, Seq<char>)>) -> Seq<char> {
    joined(entries.reverse().map_values(|entry: (Seq<char>, Seq<char>)| entry_text(entry)), seq![','])
}

/// `text` with `fill` put in front until it is `width` characters long.
pub open spec fn left_padded(text: Seq<char>, fill: char, width: nat) -> Seq<char> {
    if text.len() >= width {
        text
    } else {
        Seq::new((width - text.len()) as nat, |i: int| fill) + text
    }
}

/// The text that is hashed for a certificate: the reversed issuer summary
/// followed by the serial number in decimal.
pub fn digest_input(entries: &Vec<(String, String)>, serial: &str) -> (out: String)
    ensures
        out@ == issuer_summary(entries.deep_view()) + serial@,
{
    proof {
        reveal_strlit("=");
        reveal_strlit(",");
        assert("="@ =~= seq!['=']);
        assert(","@ =~= seq![',']);
    }
    let ghost wanted = entries.deep_view().reverse().map_values(
        |entry: (Seq<char>, Seq<char>)| entry_text(entry),
    );
    let mut parts: Vec<String> = Vec::new();
    let mut left: usize = entries.len();
    while left > 0
        invariant
            left <= entries.len(),
            "="@ == seq!['='],
            wanted == entries.deep_view().reverse().map_values(
                |entry: (Seq<char>, Seq<char>)| entry_text(entry),
            ),
            parts.deep_view() == wanted.take(entries.len() - left),
        decreases left,
    {
        left -= 1;
        let mut part = entries[left].0.clone();
        part.append("=");
        part.append(entries[left].1.as_str());
        let ghost before = parts.deep_view();
        parts.push(part);
        proof {
            let k = entries.len() - left - 1;
            assert(entries.deep_view()[left as int] == (entries[left as int].0@, entries[left as int].1@));
            assert(wanted[k] == entry_text(entries.deep_view()[left as int]));
            assert(parts.deep_view() =~= before + seq![part@]);
            assert(parts.deep_view() =~= wanted.take(k + 1));
        }
    }
    assert(wanted.take(entries.len() as int) =~= wanted);
    let mut out = join_strings(&parts, ",");
    out.append(serial);
    out
}

/// The identity that a digest stands for: its lowercase hexadecimal text,
/// filled from the left with `0` to 32 characters.
pub fn serial_from_digest(digest: &[u8]) -> (out: String)
    ensures
        out@ == left_padded(hex_text(digest@), '0', 32),
        out@.len() == if digest@.len() <= 16 {
            32
        } else {
            2 * digest@.len()
        },
        forall|i: int| 0 <= i < out@.len() ==> is_lower_hex(#[trigger] out@[i]),
{
    proof {
        lemma_hex_text_shape(digest@);
    }
    let hex = hex_encode(digest);
    let hex_len: usize = hex.as_str().unicode_len();
    let mut out = String::new();
    if hex_len < 32 {
        let mut i: usize = hex_len;
        while i < 32
            invariant
                hex_len <= i <= 32,
                out@ == Seq::new((i - hex_len) as nat, |k: int| '0'),
            decreases 32 - i,
        {
            out.push('0');
            i += 1;
            assert(out@ =~= Seq::new((i - hex_len) as nat, |k: int| '0'));
        }
    } else {
        assert(out@ + hex@ =~= hex@);
    }
    out.append(hex.as_str());
    out
}

/// Whether `text` has the shape of a digest identity: 32 digits of lowercase
/// hexadecimal.
pub open spec fn is_identity(text: Seq<char>) -> bool {
    text.len() == 32 && forall|i: int| 0 <= i < 32 ==> is_lower_hex(#[trigger] text[i])
}

/// What the digest identity of the PEM certificate `pem` comes to.
pub open spec fn digest_identity_outcome(pem: Seq<u8>) -> Result<Seq<char>, Seq<char>> {
    if pem.len() > OPENSSL_MAX_LEN {
        Err("TooLong"@)
    } else if asks_passphrase(pem) {
        Err("KeyLoad"@)
    } else {
        match x509_issuer(pem) {
            None => Err("KeyLoad"@),
            Some(entries) => match x509_serial_decimal(pem) {
                None => Err("KeyLoad"@),
                Some(serial) => match md5_bytes(encode_utf8(issuer_summary(entries) + serial)) {
                    None => Err("Digest"@),
                    Some(digest) => Ok(left_padded(hex_text(digest), '0', 32)),
                },
            },
        }
    }
}

/// Computes the digest identity of a PEM certificate: the MD5 digest, in
/// lowercase hexadecimal and filled to 32 characters, of the reversed issuer
/// summary followed by the decimal serial number.
///
/// The error kind is `TooLong` where the text is longer than OpenSSL takes,
/// `KeyLoad` where the certificate cannot be read or says that it is
/// encrypted, and `Digest` where hashing fails. An identity is 32 digits of
/// lowercase hexadecimal.
pub fn get_cert_sn_by_content(pem: &[u8]) -> (r: Result<String, WeaError>)
    ensures
        text_outcome(r) == digest_identity_outcome(pem@),
        r matches Ok(identity) ==> is_identity(identity@),
{
    if pem.len() > OPENSSL_MAX_LEN {
        return Err(WeaError::new("TooLong", String::from_str("certificate too long")));
    }
    if pem_asks_passphrase(pem) {
        return Err(WeaError::new("KeyLoad", String::from_str("certificate is encrypted")));
    }
    let entries = match read_issuer(pem) {
        Err(stack) => { return Err(WeaError::new("KeyLoad", stack_text(&stack))); },
        Ok(entries) => entries,
    };
    let serial = match read_serial_decimal(pem) {
        Err(stack) => { return Err(WeaError::new("KeyLoad", stack_text(&stack))); },
        Ok(serial) => serial,
    };
    let input = digest_input(&entries, serial.as_str());
    match md5_digest(input.as_str().as_bytes()) {
        Err(stack) => Err(WeaError::new("Digest", stack_text(&stack))),
        Ok(digest) => Ok(serial_from_digest(digest.as_slice())),
    }
}

/// What the serial identity of the PEM text `pem` comes to: the serial number
/// of its first certificate in uppercase hexadecimal.
pub open spec fn serial_identity_outcome(pem: Seq<u8>) -> Result<Seq<char>, Seq<char>> {
    if pem.len() > OPENSSL_MAX_LEN {
        Err("TooLong"@)
    } else if asks_passphrase(pem) {
        Err("KeyLoad"@)
    } else {
        match x509_first_serial_hex(pem) {
            None => Err("KeyLoad"@),
            Some(None) => Err("KeyLoad"@),
            Some(Some(serial)) => Ok(serial.map_values(|c: char| upper_char(c))),
        }
    }
}

/// Reads the serial number of the first certificate of a PEM text and renders
/// it in uppercase hexadecimal.
///
/// The error kind is `TooLong` where the text is longer than OpenSSL takes
/// and `KeyLoad` where it cannot be read, says that it is encrypted or holds
/// no certificate.
pub fn get_cert_serial(pem: &[u8]) -> (r: Result<String, WeaError>)
    ensures
        text_outcome(r) == serial_identity_outcome(pem@),
{
    if pem.len() > OPENSSL_MAX_LEN {
        return Err(WeaError::new("TooLong", String::from_str("certificate too long")));
    }
    if pem_asks_passphrase(pem) {
        return Err(WeaError::new("KeyLoad", String::from_str("certificate is encrypted")));
    }
    match read_first_serial_hex(pem) {
        Err(stack) => Err(WeaError::new("KeyLoad", stack_text(&stack))),
        Ok(None) => Err(WeaError::new("KeyLoad", String::from_str("no certificate found"))),
        Ok(Some(serial)) => Ok(ascii_upper(serial.as_str())),
    }
}

/// Computes the digest identity of a PEM certificate given as text.
pub fn get_cert_sn(cert: &str) -> (r: Result<String, WeaError>)
    ensures
        text_outcome(r) == digest_identity_outcome(encode_utf8(cert@)),
        r matches Ok(identity) ==> is_identity(identity@),
{
    get_cert_sn_by_content(cert.as_bytes())
}

/// The line that ends a certificate in a PEM bundle.
pub open spec fn end_mark() -> Seq<char> {
    "-----END CERTIFICATE-----"@
}

/// The digest identity of one segment of a bundle, where the segment counts:
/// it is a certificate signed with SHA-256 or SHA-1 and RSA whose identity
/// can be computed.
pub open spec fn root_member(segment: Seq<char>) -> Option<Seq<char>> {
    let pem = encode_utf8(segment);
    if pem.len() > OPENSSL_MAX_LEN || asks_passphrase(pem) {
        None
    } else {
        match x509_signature_nid(pem) {
            None => None,
            Some(nid) => if nid == NID_SHA256_WITH_RSA || nid == NID_SHA1_WITH_RSA {
                match digest_identity_outcome(pem) {
                    Ok(identity) => Some(identity),
                    Err(_) => None,
                }
            } else {
                None
            },
        }
    }
}

/// The identities of the segments that count, in the order of the segments.
pub open spec fn root_members(parts: Seq<Seq<char>>) -> Seq<Seq<char>>
    decreases parts.len(),
{
    if parts.len() == 0 {
        Seq::empty()
    } else {
        root_members(parts.drop_last()) + match root_member(parts.last()) {
            Some(identity) => seq![identity],
            None => Seq::empty(),
        }
    }
}

/// The identity of a bundle of root certificates.
pub open spec fn root_serial_text(bundle: Seq<char>) -> Seq<char> {
    joined(root_members(segments(bundle, end_mark())), seq!['_'])
}

/// Computes the identity of a PEM bundle of root certificates: the bundle is
/// cut after every end line, segments that are no certificate signed with
/// SHA-256 or SHA-1 and RSA are left out, and the digest identities of the
/// others are joined by `_` in the order of the bundle.
pub fn get_root_cert_sn(bundle: &str) -> (out: String)
    ensures
        out@ == root_serial_text(bundle@),
{
    proof {
        reveal_strlit("_");
        assert("_"@ =~= seq!['_']);
    }
    let parts = split_after(bundle, "-----END CERTIFICATE-----");
    let mut found: Vec<String> = Vec::new();
    let mut i: usize = 0;
    while i < parts.len()
        invariant
            i <= parts.len(),
            found.deep_view() == root_members(parts.deep_view().take(i as int)),
        decreases parts.len() - i,
    {
        let pem = parts[i].as_str().as_bytes();
        let ghost before = found.deep_view();
        let ghost now = parts.deep_view().take(i + 1);
        proof {
            assert(now.drop_last() =~= parts.deep_view().take(i as int));
            assert(now.last() == parts[i as int]@);
        }
        if pem.len() <= OPENSSL_MAX_LEN && !pem_asks_passphrase(pem) {
            match read_signature_nid(pem) {
                Ok(nid) => {
                    if is_rsa_signed(nid) {
                        match get_cert_sn_by_content(pem) {
                            Ok(identity) => {
                                found.push(identity);
                                assert(found.deep_view() =~= before + seq![identity@]);
                            },
                            Err(_) => {},
                        }
                    }
                },
                Err(_) => {},
            }
        }
        assert(found.deep_view() =~= root_members(now));
        i += 1;
    }
    assert(parts.deep_view().take(i as int) =~= parts.deep_view());
    join_strings(&found, "_")
}

} // verus!
