//! Clock, random text and decimal numbers.

use crate::encoding::{hex_encode, hex_text, stack_text, OPENSSL_MAX_LEN};
use crate::error::WeaError;
use openssl::error::ErrorStack;
use std::time::{Duration, SystemTime, SystemTimeError, UNIX_EPOCH};
use vstd::prelude::*;
use vstd::string::{StrSliceExecFns, StringExecFns};

verus! {

/// A point in time as the system clock gives it.
#[verifier::external_type_specification]
#[verifier::external_body]
pub struct ExSystemTime(SystemTime);

/// The error of a clock that stands before the reference point.
#[verifier::external_type_specification]
#[verifier::external_body]
pub struct ExSystemTimeError(SystemTimeError);

/// `SystemTime::now` reads the system clock; nothing is known of its result.
pub assume_specification[ SystemTime::now ]() -> (now: SystemTime);

/// `SystemTime::duration_since` measures the time since an earlier point and
/// fails where that point is later; nothing is claimed of the measure.
pub assume_specification[ SystemTime::duration_since ](
    time: &SystemTime,
    earlier: SystemTime,
) -> (r: Result<Duration, SystemTimeError>);

/// `Duration::as_secs` gives the whole seconds of a duration.
pub assume_specification[ Duration::as_secs ](duration: &Duration) -> (secs: u64);

/// `Duration::as_millis` gives the whole milliseconds of a duration.
pub assume_specification[ Duration::as_millis ](duration: &Duration) -> (millis: u128);

/// Hands out `std::time::UNIX_EPOCH`, the reference point of Unix time.
#[verifier::external_body]
pub(crate) fn unix_epoch() -> (epoch: SystemTime) {
    UNIX_EPOCH
}

/// Calls `openssl::rand::rand_bytes` on a fresh buffer of `count` bytes.
///
/// Trusted: on success the buffer comes back filled, with its length kept.
/// The bytes are random, so nothing else is claimed. Buffers longer than a C
/// integer can count make the outside function panic and are excluded.
#[verifier::external_body]
pub(crate) fn random_bytes(count: usize) -> (r: Result<Vec<u8>, ErrorStack>)
    requires
        count <= OPENSSL_MAX_LEN,
    ensures
        r matches Ok(bytes) ==> bytes@.len() == count,
{
    let mut bytes = vec![0u8; count];
    openssl::rand::rand_bytes(&mut bytes)?;
    Ok(bytes)
}

/// An error without a kind, carrying only a message.
pub fn e(message: &str) -> (err: WeaError)
    ensures
        err.kind@ == Seq::<char>::empty(),
        err.message@ == message@,
{
    proof {
        reveal_strlit("");
        assert(""@ =~= Seq::<char>::empty());
    }
    WeaError::new("", String::from_str(message))
}

/// The seconds since the Unix epoch, as the system clock gives them. The
/// error kind is `SystemTime` where the clock stands before the epoch.
pub fn get_timestamp() -> (r: Result<u64, WeaError>)
    ensures
        r matches Err(err) ==> err.kind@ == "SystemTime"@,
{
    match SystemTime::now().duration_since(unix_epoch()) {
        Ok(elapsed) => Ok(elapsed.as_secs()),
        Err(_) => Err(WeaError::new("SystemTime", String::from_str("clock before the epoch"))),
    }
}

/// The milliseconds since the Unix epoch, as the system clock gives them. The
/// error kind is `SystemTime` where the clock stands before the epoch.
pub fn get_timestamp_millis() -> (r: Result<u128, WeaError>)
    ensures
        r matches Err(err) ==> err.kind@ == "SystemTime"@,
{
    match SystemTime::now().duration_since(unix_epoch()) {
        Ok(elapsed) => Ok(elapsed.as_millis()),
        Err(_) => Err(WeaError::new("SystemTime", String::from_str("clock before the epoch"))),
    }
}

/// The decimal digit for a value below ten.
pub open spec fn digit_char(n: nat) -> char {
    ((48 + n) as u8) as char
}

/// The decimal rendering of `n`, without sign or leading zeros.
pub open spec fn decimal_text(n: nat) -> Seq<char>
    decreases n,
{
    if n < 10 {
        seq![digit_char(n)]
    } else {
        decimal_text(n / 10).push(digit_char(n % 10))
    }
}

/// Renders `n` in decimal.
pub fn decimal_string(n: u128) -> (out: String)
    ensures
        out@ == decimal_text(n as nat),
{
    let mut digits: Vec<char> = Vec::new();
    let mut rest: u128 = n;
    // The digits are collected from the lowest upward and written out in
    // reverse.
    while rest >= 10
        invariant
            decimal_text(n as nat) == decimal_text(rest as nat) + digits@.reverse(),
        decreases rest,
    {
        let low: u8 = (rest % 10) as u8;
        let ghost before = digits@;
        digits.push((48 + low) as char);
        proof {
            assert(digits@.reverse() =~= seq![digit_char((rest % 10) as nat)] + before.reverse());
            assert(decimal_text(rest as nat) == decimal_text((rest / 10) as nat).push(
                digit_char((rest % 10) as nat),
            ));
            assert(decimal_text(rest as nat) + before.reverse() =~= decimal_text(
                (rest / 10) as nat,
            ) + digits@.reverse());
        }
        rest = rest / 10;
    }
    let mut out = String::new();
    out.push((48 + (rest as u8)) as char);
    let mut left: usize = digits.len();
    while left > 0
        invariant
            left <= digits.len(),
            out@ == decimal_text(rest as nat) + digits@.reverse().take(digits.len() - left),
        decreases left,
    {
        left -= 1;
        out.push(digits[left]);
        assert(out@ =~= decimal_text(rest as nat) + digits@.reverse().take(digits.len() - left));
    }
    assert(digits@.reverse().take(digits.len() as int) =~= digits@.reverse());
    out
}

/// The first `len` characters of the lowercase hexadecimal text of `bytes`.
pub fn random_text(bytes: &[u8], len: usize) -> (out: String)
    requires
        len <= 2 * bytes@.len(),
    ensures
        out@ == hex_text(bytes@).take(len as int),
{
    let hex = hex_encode(bytes);
    let part = hex.as_str().substring_char(0, len);
    String::from_str(part)
}

/// A random text of `len` lowercase hexadecimal digits, drawn from
/// `len / 2` random bytes, rounded up.
///
/// The error kind is `TooLong` where more bytes are asked for than OpenSSL
/// gives at once, and `Random` where its generator fails.
pub fn generate_random_string(len: usize) -> (r: Result<String, WeaError>)
    ensures
        len / 2 + len % 2 > OPENSSL_MAX_LEN ==> r is Err,
        match r {
            Ok(text) => exists|bytes: Seq<u8>|
                bytes.len() == len / 2 + len % 2 && text@ == #[trigger] hex_text(bytes).take(
                    len as int,
                ),
            Err(err) => if len / 2 + len % 2 > OPENSSL_MAX_LEN {
                err.kind@ == "TooLong"@
            } else {
                err.kind@ == "Random"@
            },
        },
{
    let count: usize = len / 2 + len % 2;
    if count > OPENSSL_MAX_LEN {
        return Err(WeaError::new("TooLong", String::from_str("too many random bytes")));
    }
    match random_bytes(count) {
        Err(stack) => Err(WeaError::new("Random", stack_text(&stack))),
        Ok(bytes) => Ok(random_text(bytes.as_slice(), len)),
    }
}

} // verus!
