//! Requests ready for the transport, and what responses claim of themselves.

use crate::error::{flag_outcome, WeaError};
use crate::signature::{verification_outcome, verify};
use crate::text::{ascii_lower, lower_char, same_text};
use crate::utils::decimal_text;
use vstd::prelude::*;
use vstd::string::StringExecFns;

verus! {

/// A request as the transport has to send it.
#[derive(Clone, Debug)]
pub struct AuthenticatedRequest {
    /// `GET`, `POST`, `PUT` or `DELETE`.
    pub method: String,
    /// The absolute address.
    pub url: String,
    /// The headers, with the order in which they are to be set.
    pub headers: Vec<(String, String)>,
    /// The body, where the request has one.
    pub body: Option<String>,
}

/// An operation of the provider that is ready to be sent: where it goes, how,
/// and the data that make its body.
#[derive(Debug)]
pub struct Operation<B> {
    /// The path of the operation.
    pub uri: String,
    /// The method of the request.
    pub method: String,
    /// The data of the body; `()` where the operation has none.
    pub body: B,
}

/// What an `AuthenticatedRequest` holds, as plain sequences.
pub struct RequestModel {
    pub method: Seq<char>,
    pub url: Seq<char>,
    pub headers: Seq<(Seq<char>, Seq<char>)>,
    pub body: Option<Seq<char>>,
}

impl AuthenticatedRequest {
    /// The request as plain sequences.
    pub open spec fn model(&self) -> RequestModel {
        RequestModel {
            method: self.method@,
            url: self.url@,
            headers: self.headers.deep_view(),
            body: match self.body {
                Some(body) => Some(body@),
                None => None,
            },
        }
    }

    /// The value of the first header called `name`.
    pub fn header(&self, name: &str) -> (value: Option<&str>)
        ensures
            value.deep_view() == first_value(self.headers.deep_view(), name@),
    {
        let mut i: usize = 0;
        assert(self.headers.deep_view().skip(0) =~= self.headers.deep_view());
        while i < self.headers.len()
            invariant
                i <= self.headers.len(),
                first_value(self.headers.deep_view(), name@) == first_value(
                    self.headers.deep_view().skip(i as int),
                    name@,
                ),
            decreases self.headers.len() - i,
        {
            let ghost rest = self.headers.deep_view().skip(i as int);
            proof {
                assert(rest[0] == (self.headers[i as int].0@, self.headers[i as int].1@));
                assert(rest.drop_first() =~= self.headers.deep_view().skip(i + 1));
            }
            if same_text(self.headers[i].0.as_str(), name) {
                return Some(self.headers[i].1.as_str());
            }
            i += 1;
        }
        None
    }
}

/// The value of the first pair of `pairs` whose name is `name`.
pub open spec fn first_value(pairs: Seq<(Seq<char>, Seq<char>)>, name: Seq<char>) -> Option<
    Seq<char>,
>
    decreases pairs.len(),
{
    if pairs.len() == 0 {
        None
    } else if pairs[0].0 == name {
        Some(pairs[0].1)
    } else {
        first_value(pairs.drop_first(), name)
    }
}

/// `name` with its ASCII letters in lower case, the form in which header
/// names are compared.
pub open spec fn lowered(name: Seq<char>) -> Seq<char> {
    name.map_values(|c: char| lower_char(c))
}

/// The value of the first header of `headers` whose name is `name`, letter
/// case set aside.
pub open spec fn header_value(headers: Seq<(Seq<char>, Seq<char>)>, name: Seq<char>) -> Option<
    Seq<char>,
>
    decreases headers.len(),
{
    if headers.len() == 0 {
        None
    } else if lowered(headers[0].0) == lowered(name) {
        Some(headers[0].1)
    } else {
        header_value(headers.drop_first(), name)
    }
}

/// Finds the value of the header `name` among `headers`, whatever the case of
/// its letters.
pub fn find_header<'a>(headers: &'a Vec<(String, String)>, name: &str) -> (value: Option<&'a str>)
    ensures
        value.deep_view() == header_value(headers.deep_view(), name@),
{
    let wanted = ascii_lower(name);
    let mut i: usize = 0;
    assert(headers.deep_view().skip(0) =~= headers.deep_view());
    while i < headers.len()
        invariant
            i <= headers.len(),
            wanted@ == lowered(name@),
            header_value(headers.deep_view(), name@) == header_value(
                headers.deep_view().skip(i as int),
                name@,
            ),
        decreases headers.len() - i,
    {
        let ghost rest = headers.deep_view().skip(i as int);
        proof {
            assert(rest[0] == (headers[i as int].0@, headers[i as int].1@));
            assert(rest.drop_first() =~= headers.deep_view().skip(i + 1));
        }
        let have = ascii_lower(headers[i].0.as_str());
        if have == wanted {
            return Some(headers[i].1.as_str());
        }
        i += 1;
    }
    None
}

/// What an inbound message claims of itself: when it was made, with which
/// nonce, what it says, and the signature over these by the certificate of
/// the serial named. A claim is made for one message and used up by its
/// check.
#[derive(Debug)]
pub struct VerificationClaim {
    pub timestamp: String,
    pub nonce: String,
    pub body: String,
    pub signature: String,
    pub serial: String,
}

impl VerificationClaim {
    /// The fields that the signature of the claim covers, in their order.
    pub open spec fn fields(&self) -> Seq<Seq<char>> {
        seq![self.timestamp@, self.nonce@, self.body@]
    }

    /// Verifies the signature of the claim under the key material
    /// `public_key`.
    pub fn verify_under(self, public_key: &str) -> (r: Result<bool, WeaError>)
        ensures
            flag_outcome(r) == verification_outcome(self.fields(), self.signature@, public_key@),
    {
        let fields: Vec<&str> = vec![
            self.timestamp.as_str(),
            self.nonce.as_str(),
            self.body.as_str(),
        ];
        assert(fields.deep_view() =~= self.fields());
        verify(&fields, self.signature.as_str(), public_key)
    }
}

/// Reads the claim of a message from its headers and its body. The headers
/// are found whatever the case of their letters; there is no claim where one
/// of them is missing.
pub fn read_claim(
    headers: &Vec<(String, String)>,
    body: &str,
    serial_name: &str,
    timestamp_name: &str,
    nonce_name: &str,
    signature_name: &str,
) -> (claim: Option<VerificationClaim>)
    ensures
        match claim {
            Some(claim) => {
                &&& header_value(headers.deep_view(), serial_name@) == Some(claim.serial@)
                &&& header_value(headers.deep_view(), timestamp_name@) == Some(claim.timestamp@)
                &&& header_value(headers.deep_view(), nonce_name@) == Some(claim.nonce@)
                &&& header_value(headers.deep_view(), signature_name@) == Some(claim.signature@)
                &&& claim.body@ == body@
            },
            None => {
                ||| header_value(headers.deep_view(), serial_name@) is None
                ||| header_value(headers.deep_view(), timestamp_name@) is None
                ||| header_value(headers.deep_view(), nonce_name@) is None
                ||| header_value(headers.deep_view(), signature_name@) is None
            },
        },
{
    let serial = find_header(headers, serial_name);
    let timestamp = find_header(headers, timestamp_name);
    let nonce = find_header(headers, nonce_name);
    let signature = find_header(headers, signature_name);
    match (serial, timestamp, nonce, signature) {
        (Some(serial), Some(timestamp), Some(nonce), Some(signature)) => Some(
            VerificationClaim {
                timestamp: String::from_str(timestamp),
                nonce: String::from_str(nonce),
                body: String::from_str(body),
                signature: String::from_str(signature),
                serial: String::from_str(serial),
            },
        ),
        _ => None,
    }
}

/// The address that the `url` crate makes of `path` taken relative to `base`:
/// `None` where `base` is no address, `Some(None)` where the two do not join.
pub uninterp spec fn url_joined(base: Seq<char>, path: Seq<char>) -> Option<Option<Seq<char>>>;

/// The name and value pairs that the `url` crate reads from the query of the
/// address `url`, decoded, in their order; `None` where `url` is no address.
pub uninterp spec fn url_query_pairs(url: Seq<char>) -> Option<Seq<(Seq<char>, Seq<char>)>>;

/// Calls `Url::parse`, `Url::join` and `Url::as_str` of the `url` crate, as
/// `reqwest` hands it on.
///
/// Trusted: the outcome depends on the two texts alone.
#[verifier::external_body]
pub(crate) fn join_url(base: &str, path: &str) -> (r: Option<Option<String>>)
    ensures
        r.deep_view() == url_joined(base@, path@),
{
    let base = reqwest::Url::parse(base).ok()?;
    Some(base.join(path).ok().map(|url| url.as_str().to_string()))
}

/// Calls `Url::parse` and `Url::query_pairs` of the `url` crate, as `reqwest`
/// hands it on.
///
/// Trusted: the outcome depends on the text alone.
#[verifier::external_body]
pub(crate) fn query_pairs(url: &str) -> (r: Option<Vec<(String, String)>>)
    ensures
        r.deep_view() == url_query_pairs(url@),
{
    let url = reqwest::Url::parse(url).ok()?;
    Some(url.query_pairs().map(|(name, value)| (name.into_owned(), value.into_owned())).collect())
}

/// The method that the transport uses for `method`: the four known methods
/// stand for themselves, any other text for `GET`.
pub open spec fn transport_method(method: Seq<char>) -> Seq<char> {
    if method == "POST"@ || method == "PUT"@ || method == "DELETE"@ {
        method
    } else {
        "GET"@
    }
}

/// Picks the method that the transport uses for `method`.
pub fn normalize_method(method: &str) -> (out: String)
    ensures
        out@ == transport_method(method@),
{
    if same_text(method, "POST") || same_text(method, "PUT") || same_text(method, "DELETE") {
        String::from_str(method)
    } else {
        String::from_str("GET")
    }
}

/// The body that the transport sends: none where the text is empty.
pub open spec fn transport_body(body: Seq<char>) -> Option<Seq<char>> {
    if body.len() == 0 {
        None
    } else {
        Some(body)
    }
}

/// Attaches `body` where it is not empty.
pub fn attach_body(body: String) -> (out: Option<String>)
    ensures
        out.deep_view() == transport_body(body@),
{
    if body.as_str().unicode_len() == 0 {
        None
    } else {
        Some(body)
    }
}

/// What building a request came to: the request, or the kind of the error.
pub open spec fn request_outcome(r: Result<AuthenticatedRequest, WeaError>) -> Result<
    RequestModel,
    Seq<char>,
> {
    match r {
        Ok(request) => Ok(request.model()),
        Err(err) => Err(err.kind@),
    }
}

/// Whether a status stands for success.
pub open spec fn is_success(status: u16) -> bool {
    status == 200 || status == 204
}

/// The message of the error that a failed status gives: the body, or the
/// status in decimal where the body is empty.
pub open spec fn status_message(status: u16, body: Seq<char>) -> Seq<char> {
    if body.len() == 0 {
        decimal_text(status as nat)
    } else {
        body
    }
}

} // verus!
