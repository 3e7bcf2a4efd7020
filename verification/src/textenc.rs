use vstd::prelude::*;

use vstd::string::StringSliceAdditionalSpecFns;
use vstd::utf8::{decode_utf8, valid_utf8, encode_utf8, encode_utf8_decode_utf8,
    encode_utf8_valid_utf8, is_ascii_chars, is_ascii_chars_encode_utf8};

use crate::error::VaultError;

verus! {

/// The decimal digits of `n`, as ASCII codes, most significant first.
pub open spec fn decimal_digits(n: nat) -> Seq<u8>
    decreases n,
{
    if n < 10 {
        seq![(48 + n) as u8]
    } else {
        decimal_digits(n / 10) + seq![(48 + n % 10) as u8]
    }
}

/// The decimal digits of `n`, as text.
pub open spec fn decimal_chars(n: nat) -> Seq<char> {
    Seq::new(decimal_digits(n).len(), |i: int| decimal_digits(n)[i] as char)
}

proof fn lemma_decimal_digits_ascii(n: nat)
    ensures
        forall|i: int| 0 <= i < decimal_digits(n).len() ==> #[trigger] decimal_digits(n)[i] < 128,
    decreases n,
{
    if n >= 10 {
        lemma_decimal_digits_ascii(n / 10);
        let pre = decimal_digits(n / 10);
        assert forall|i: int|
            0 <= i < decimal_digits(n).len() implies #[trigger] decimal_digits(n)[i] < 128 by {
            if i < pre.len() {
                assert(decimal_digits(n)[i] == pre[i]);
            } else {
                assert(decimal_digits(n)[i] == (48 + n % 10) as u8);
            }
        }
    }
}

/// Writes a number in decimal.
pub fn u32_to_string(x: u32) -> (r: String)
    ensures
        r@ == decimal_chars(x as nat),
{
    let mut acc: Vec<u8> = Vec::new();
    let mut m: u32 = x;
    while m >= 10
        invariant
            decimal_digits(x as nat) == decimal_digits(m as nat) + acc@.reverse(),
        decreases m,
    {
        let ghost acc0 = acc@;
        let ghost m0 = m;
        let d: u8 = 48 + (m % 10) as u8;
        acc.push(d);
        m = m / 10;
        proof {
            assert(acc@.reverse() =~= seq![d] + acc0.reverse());
            assert(decimal_digits(m0 as nat) == decimal_digits(m as nat) + seq![d]);
            assert(decimal_digits(x as nat) =~= decimal_digits(m as nat) + acc@.reverse());
        }
    }
    let ghost acc1 = acc@;
    let ghost m1 = m;
    acc.push(48 + m as u8);
    proof {
        assert(acc@.reverse() =~= seq![(48 + m1) as u8] + acc1.reverse());
        assert(decimal_digits(m1 as nat) =~= seq![(48 + m1) as u8]);
        assert(acc@.reverse() =~= decimal_digits(x as nat));
    }
    let mut digits: Vec<u8> = Vec::new();
    let mut i: usize = acc.len();
    while i > 0
        invariant
            i <= acc@.len(),
            acc@.reverse() =~= decimal_digits(x as nat),
            digits@ =~= acc@.subrange(i as int, acc@.len() as int).reverse(),
        decreases i,
    {
        i = i - 1;
        digits.push(acc[i]);
        proof {
            assert(digits@ =~= acc@.subrange(i as int, acc@.len() as int).reverse());
        }
    }
    proof {
        assert(acc@.subrange(0, acc@.len() as int) =~= acc@);
        assert(digits@ =~= acc@.reverse());
        assert(digits@ =~= decimal_digits(x as nat));
        let target = decimal_chars(x as nat);
        lemma_decimal_digits_ascii(x as nat);
        assert forall|j: int| 0 <= j < target.len() implies '\0' <= #[trigger] target[j]
            <= '\u{7f}' by {
            assert(decimal_digits(x as nat)[j] < 128);
        }
        assert(is_ascii_chars(target));
        is_ascii_chars_encode_utf8(target);
        assert(encode_utf8(target) =~= digits@);
        encode_utf8_valid_utf8(target);
        encode_utf8_decode_utf8(target);
    }
    match string_from_utf8(digits) {
        Ok(s) => s,
        Err(_) => {
            proof {
                assert(false);
            }
            String::new()
        },
    }
}

/// Compares two strings character for character.
pub fn str_eq(a: &str, b: &str) -> (r: bool)
    ensures
        r == (a@ == b@),
{
    let ab = a.as_bytes();
    let bb = b.as_bytes();
    let n = ab.len();
    if n != bb.len() {
        return false;
    }
    let mut i: usize = 0;
    while i < n
        invariant
            n == ab@.len() == bb@.len(),
            i <= n,
            ab@ == a.spec_bytes(),
            bb@ == b.spec_bytes(),
            forall|j: int| 0 <= j < i as int ==> ab@[j] == bb@[j],
        decreases n - i,
    {
        if ab[i] != bb[i] {
            return false;
        }
        i = i + 1;
    }
    proof {
        assert(a.spec_bytes() =~= b.spec_bytes());
        encode_utf8_decode_utf8(a@);
        encode_utf8_decode_utf8(b@);
    }
    true
}

/// Relies on `String::from_utf8`: it returns the string whose UTF-8 encoding
/// is the given byte sequence, and fails exactly when the bytes are not valid
/// UTF-8.
#[verifier::external_body]
pub(crate) fn string_from_utf8(bytes: Vec<u8>) -> (r: Result<String, VaultError>)
    ensures
        r matches Ok(s) ==> valid_utf8(bytes@) && s@ == decode_utf8(bytes@),
        r matches Err(e) ==> !valid_utf8(bytes@) && e is FromUtf8Error,
{
    match String::from_utf8(bytes) {
        Ok(s) => Ok(s),
        Err(_) => Err(VaultError::FromUtf8Error),
    }
}

} // verus!
