use vstd::prelude::*;

use vstd::string::{StringExecFns, StrSliceExecFns};

verus! {

/// The bytes a seed text decodes to under the unpadded lowercase RFC 4648
/// base32 alphabet, or `None` when the text is not such base32.
pub uninterp spec fn base32_decoded(s: Seq<char>) -> Option<Seq<u8>>;

/// Relies on `base32::decode` with `Alphabet::Rfc4648Lower { padding: false }`:
/// the result is a function of the text alone.
#[verifier::external_body]
fn base32_decode_seed(s: &str) -> (r: Option<Vec<u8>>)
    ensures
        r matches Some(v) ==> base32_decoded(s@) == Some(v@),
        r is None ==> base32_decoded(s@) is None,
{
    base32::decode(base32::Alphabet::Rfc4648Lower { padding: false }, s)
}

/// The six-digit TOTP code of a seed at a Unix time, under the default
/// settings of RFC 6238: SHA-1, 30-second steps from epoch.
pub uninterp spec fn totp_code(key: Seq<u8>, time: u64) -> Seq<char>;

/// Relies on `TotpGenerator::get_code_with` at its default settings (six
/// digits, 30-second step, SHA-1): the code is a function of the key and the
/// given Unix time alone, and is always exactly six decimal digits.
#[verifier::external_body]
fn totp_code_at(key: &[u8], time: u64) -> (r: String)
    ensures
        r@ == totp_code(key@, time),
        r@.len() == 6,
        forall|i: int| 0 <= i < r@.len() ==> '0' <= #[trigger] r@[i] <= '9',
{
    let totp = totp_rfc6238::TotpGenerator::new().build();
    totp.get_code_with(key, || time)
}

/// Relies on `std::time::SystemTime::now`: seconds since the Unix epoch as
/// the clock gives them, zero when the clock stands before the epoch.
#[verifier::external_body]
pub(crate) fn unix_time_now() -> u64 {
    match std::time::SystemTime::now().duration_since(std::time::UNIX_EPOCH) {
        Ok(d) => d.as_secs(),
        Err(_) => 0,
    }
}

/// The display text of a TOTP field at a given time: a decodable seed shows
/// itself followed by its code, anything else is shown unchanged.
pub open spec fn totp_display(raw: Seq<char>, time: u64) -> Seq<char> {
    match base32_decoded(raw) {
        Some(k) => raw + " => "@ + totp_code(k, time),
        None => raw,
    }
}

/// Renders a TOTP field value at the given Unix time. Best effort: a value
/// that does not decode as a base32 seed is returned unchanged.
pub fn totp_field_value_at(raw: &str, time: u64) -> (r: String)
    ensures
        r@ == totp_display(raw@, time),
{
    match base32_decode_seed(raw) {
        Some(key) => {
            let code = totp_code_at(key.as_slice(), time);
            String::from_str(raw).concat(" => ").concat(code.as_str())
        },
        None => String::from_str(raw),
    }
}

/// Renders a TOTP field value at the current time.
pub fn totp_field_value(raw: &str) -> (r: String)
    ensures
        exists|t: u64| r@ == totp_display(raw@, t),
{
    let t = unix_time_now();
    let r = totp_field_value_at(raw, t);
    proof {
        assert(r@ == totp_display(raw@, t));
    }
    r
}

} // verus!
