//! The JSON text of a flushed record: one object with three integer fields.

use vstd::prelude::*;
use vstd::string::StringSliceAdditionalSpecFns;

verus! {

#[verifier::external_type_specification]
#[verifier::external_body]
pub struct ExJsonError(serde_json::Error);

/// The text before the first field's value.
pub const SUCCESSFUL_ACTIVATION_KEY: &'static str = "{\"successful_activation\":";

/// The text between the first and the second field's value.
pub const ACTIVATE_ERROR_KEY: &'static str = ",\"activate_error\":";

/// The text between the second and the third field's value.
pub const FEATURES_ERROR_KEY: &'static str = ",\"features_error\":";

/// The text after the third field's value.
pub const RECORD_END: &'static str = "}";

/// The decimal digits of `n` as ASCII bytes, most significant first, without
/// sign or leading zero; zero is the single digit `0`.
pub open spec fn decimal_digits(n: nat) -> Seq<u8>
    decreases n,
{
    if n < 10 {
        seq![(48 + n) as u8]
    } else {
        decimal_digits(n / 10).push((48 + n % 10) as u8)
    }
}

/// A record whose three values are already text: the keys in their fixed
/// order, each followed by its value, in compact object notation.
pub open spec fn record_frame(
    successful_activation: Seq<u8>,
    activate_error: Seq<u8>,
    features_error: Seq<u8>,
) -> Seq<u8> {
    SUCCESSFUL_ACTIVATION_KEY.spec_bytes() + successful_activation
        + ACTIVATE_ERROR_KEY.spec_bytes() + activate_error + FEATURES_ERROR_KEY.spec_bytes()
        + features_error + RECORD_END.spec_bytes()
}

/// The record that reports the three given counts.
pub open spec fn record_bytes(
    successful_activation: nat,
    activate_error: nat,
    features_error: nat,
) -> Seq<u8> {
    record_frame(
        decimal_digits(successful_activation),
        decimal_digits(activate_error),
        decimal_digits(features_error),
    )
}

/// Calls `serde_json::to_string` on an unsigned 64-bit integer and hands the
/// text over as bytes. Trusted: the call succeeds on every integer, and the
/// text is the integer's decimal digits and nothing else. (The encoder writes
/// an integer's digits into a byte vector in memory; neither step can fail.)
#[verifier::external_body]
fn to_json(value: u64) -> (res: Result<Vec<u8>, serde_json::Error>)
    ensures
        res is Ok,
        res matches Ok(text) ==> text@ == decimal_digits(value as nat),
{
    serde_json::to_string(&value).map(String::into_bytes)
}

/// The JSON text of `value`: its decimal digits. The encoder cannot fail on
/// an integer, so the text is always there; the `Option` keeps the encoder's
/// error out of the way without a panic.
pub fn encode_u64(value: u64) -> (text: Option<Vec<u8>>)
    ensures
        text is Some,
        text matches Some(bytes) ==> bytes@ == decimal_digits(value as nat),
{
    match to_json(value) {
        Ok(bytes) => Some(bytes),
        Err(_) => None,
    }
}

/// Appends `bytes` to `buffer`.
pub fn append_bytes(buffer: &mut Vec<u8>, bytes: &[u8])
    ensures
        final(buffer)@ == old(buffer)@ + bytes@,
{
    let mut i: usize = 0;
    while i < bytes.len()
        invariant
            i <= bytes.len(),
            buffer@ == old(buffer)@ + bytes@.subrange(0, i as int),
        decreases bytes.len() - i,
    {
        buffer.push(bytes[i]);
        i += 1;
    }
    assert(bytes@.subrange(0, i as int) == bytes@);
}

/// Appends to `buffer` the record whose three values are the given texts.
pub fn append_record(
    buffer: &mut Vec<u8>,
    successful_activation: &Vec<u8>,
    activate_error: &Vec<u8>,
    features_error: &Vec<u8>,
)
    ensures
        final(buffer)@ == old(buffer)@ + record_frame(
            successful_activation@,
            activate_error@,
            features_error@,
        ),
{
    append_bytes(buffer, SUCCESSFUL_ACTIVATION_KEY.as_bytes());
    append_bytes(buffer, successful_activation.as_slice());
    append_bytes(buffer, ACTIVATE_ERROR_KEY.as_bytes());
    append_bytes(buffer, activate_error.as_slice());
    append_bytes(buffer, FEATURES_ERROR_KEY.as_bytes());
    append_bytes(buffer, features_error.as_slice());
    append_bytes(buffer, RECORD_END.as_bytes());
}

} // verus!
