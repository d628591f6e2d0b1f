//! The error type shared by every operation of the crate.

use vstd::prelude::*;
use vstd::string::StringExecFns;

verus! {

/// An error together with the stage that raised it.
///
/// `kind` names the stage and `message` carries the detail reported by that
/// stage. The kinds are:
///
/// - `KeyLoad`: key or certificate material cannot be read;
/// - `TooLong`: an input is longer than the cryptographic library takes;
/// - `SignFailure`, `VerifyFailure`: the signer or the verifier itself failed;
/// - `SignatureMismatch`: a signature did not verify;
/// - `Verification`: a message lacks what it has to claim of itself, or
///   claims another signer than the one at hand;
/// - `Base64`, `Padding`, `Utf8`, `AeadFailure`: a ciphertext or signature
///   cannot be decoded, unpadded, read as text or authenticated;
/// - `Digest`: hashing failed;
/// - `CertificateNotFound`, `EmptyCertificateSet`: a fetch did not bring the
///   certificate that was asked for, or brought none at all;
/// - `Status`: the provider answered with a failing status;
/// - `Serialization`: data cannot be read from its serial form;
/// - `Url`: an address cannot be read or joined;
/// - `TradeType`: no order can be placed for the way of payment;
/// - `SystemTime`, `Random`: the clock or the random generator failed;
/// - the empty kind: an error that has only a message.
#[derive(Debug)]
pub struct WeaError {
    pub kind: String,
    pub message: String,
}

impl WeaError {
    /// Builds an error of the given kind.
    pub fn new(kind: &str, message: String) -> (err: WeaError)
        ensures
            err.kind@ == kind@,
            err.message@ == message@,
    {
        WeaError { kind: String::from_str(kind), message }
    }

    /// The stage that raised the error.
    pub fn kind(&self) -> (k: &str)
        ensures
            k@ == self.kind@,
    {
        self.kind.as_str()
    }

    /// The detail reported by the stage.
    pub fn message(&self) -> (m: &str)
        ensures
            m@ == self.message@,
    {
        self.message.as_str()
    }

    /// Renders the error as `WeaError: From <kind>, <message>`.
    pub fn describe(&self) -> (text: String)
        ensures
            text@ == "WeaError: From "@ + self.kind@ + ", "@ + self.message@,
    {
        let mut text = String::from_str("WeaError: From ");
        text.append(self.kind.as_str());
        text.append(", ");
        text.append(self.message.as_str());
        text
    }
}

/// What a fallible operation that yields text came to: the text, or the kind
/// of the error.
pub open spec fn text_outcome(r: Result<String, WeaError>) -> Result<Seq<char>, Seq<char>> {
    match r {
        Ok(text) => Ok(text@),
        Err(err) => Err(err.kind@),
    }
}

/// What a fallible check came to: its verdict, or the kind of the error.
pub open spec fn flag_outcome(r: Result<bool, WeaError>) -> Result<bool, Seq<char>> {
    match r {
        Ok(flag) => Ok(flag),
        Err(err) => Err(err.kind@),
    }
}

} // verus!
