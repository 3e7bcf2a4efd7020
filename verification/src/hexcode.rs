use vstd::prelude::*;

use vstd::string::StringSliceAdditionalSpecFns;
use vstd::utf8::{encode_utf8, is_ascii_chars, is_ascii_chars_encode_utf8, encode_utf8_valid_utf8,
    encode_utf8_decode_utf8};

use crate::error::VaultError;
use crate::textenc::string_from_utf8;

verus! {

/// True of the ASCII code of a hexadecimal digit, either case.
pub open spec fn is_hex_digit(b: u8) -> bool {
    (48 <= b && b <= 57) || (97 <= b && b <= 102) || (65 <= b && b <= 70)
}

/// Numeric value of the hexadecimal digit with ASCII code `b`.
pub open spec fn hex_nibble(b: u8) -> u8
    recommends
        is_hex_digit(b),
{
    if 48 <= b && b <= 57 {
        (b - 48) as u8
    } else if 97 <= b && b <= 102 {
        (b - 87) as u8
    } else {
        (b - 55) as u8
    }
}

/// The byte sequence is hexadecimal text: even length, digits throughout.
pub open spec fn hex_valid(s: Seq<u8>) -> bool {
    s.len() % 2 == 0 && (forall|i: int| 0 <= i < s.len() ==> is_hex_digit(#[trigger] s[i]))
}

/// The bytes written by hexadecimal text: each pair of digits gives one byte.
pub open spec fn hex_decoded(s: Seq<u8>) -> Seq<u8> {
    Seq::new((s.len() / 2) as nat, |i: int| (hex_nibble(s[2 * i]) * 16 + hex_nibble(s[2 * i + 1])) as u8)
}

/// ASCII code of the lowercase hexadecimal digit for `n`, with `n` below 16.
pub open spec fn hex_digit_ascii(n: u8) -> u8
    recommends
        n < 16,
{
    if n < 10 {
        (48 + n) as u8
    } else {
        (87 + n) as u8
    }
}

/// Lowercase hexadecimal text for a byte sequence, two digits per byte.
pub open spec fn hex_encoded(b: Seq<u8>) -> Seq<u8> {
    Seq::new(
        (b.len() * 2) as nat,
        |i: int|
            if i % 2 == 0 {
                hex_digit_ascii(b[i / 2] / 16)
            } else {
                hex_digit_ascii(b[i / 2] % 16)
            },
    )
}

/// `hex_encoded`, read as text.
pub open spec fn hex_chars(b: Seq<u8>) -> Seq<char> {
    Seq::new(hex_encoded(b).len(), |i: int| hex_encoded(b)[i] as char)
}

fn hex_digit_value(b: u8) -> (r: Option<u8>)
    ensures
        is_hex_digit(b) ==> r == Some(hex_nibble(b)),
        !is_hex_digit(b) ==> r is None,
{
    if 48 <= b && b <= 57 {
        Some(b - 48)
    } else if 97 <= b && b <= 102 {
        Some(b - 87)
    } else if 65 <= b && b <= 70 {
        Some(b - 55)
    } else {
        None
    }
}

/// Decodes hexadecimal text into bytes; rejects odd length and non-digit bytes.
pub fn hex_decode_bytes(s: &[u8]) -> (r: Result<Vec<u8>, VaultError>)
    ensures
        hex_valid(s@) ==> (r matches Ok(v) && v@ == hex_decoded(s@)),
        !hex_valid(s@) ==> (r matches Err(e) && e is FromHexError),
{
    let n = s.len();
    if n % 2 != 0 {
        return Err(VaultError::FromHexError);
    }
    let mut out: Vec<u8> = Vec::new();
    let mut i: usize = 0;
    while i < n / 2
        invariant
            n == s@.len(),
            n % 2 == 0,
            i <= n / 2,
            out@.len() == i as int,
            forall|j: int| 0 <= j < 2 * (i as int) ==> is_hex_digit(#[trigger] s@[j]),
            forall|j: int| 0 <= j < i as int ==> out@[j] == (hex_nibble(s@[2 * j]) * 16 + hex_nibble(
                s@[2 * j + 1],
            )) as u8,
        decreases n / 2 - i,
    {
        let hi = match hex_digit_value(s[2 * i]) {
            Some(v) => v,
            None => {
                return Err(VaultError::FromHexError);
            },
        };
        let lo = match hex_digit_value(s[2 * i + 1]) {
            Some(v) => v,
            None => {
                return Err(VaultError::FromHexError);
            },
        };
        out.push(hi * 16 + lo);
        i = i + 1;
    }
    proof {
        assert(out@ =~= hex_decoded(s@));
    }
    Ok(out)
}

/// Decodes a hexadecimal string into bytes.
pub fn hex_decode(s: &str) -> (r: Result<Vec<u8>, VaultError>)
    ensures
        hex_valid(s.spec_bytes()) ==> (r matches Ok(v) && v@ == hex_decoded(s.spec_bytes())),
        !hex_valid(s.spec_bytes()) ==> (r matches Err(e) && e is FromHexError),
{
    hex_decode_bytes(s.as_bytes())
}

/// Encodes bytes as lowercase hexadecimal text.
pub fn hex_encode_bytes(b: &[u8]) -> (r: Vec<u8>)
    ensures
        r@ == hex_encoded(b@),
{
    let n = b.len();
    let mut out: Vec<u8> = Vec::new();
    let mut i: usize = 0;
    while i < n
        invariant
            n == b@.len(),
            i <= n,
            out@.len() == 2 * (i as int),
            forall|j: int| 0 <= j < out@.len() ==> out@[j] == hex_encoded(b@)[j],
        decreases n - i,
    {
        let x = b[i];
        let hi = x / 16;
        let lo = x % 16;
        out.push(if hi < 10 { 48 + hi } else { 87 + hi });
        out.push(if lo < 10 { 48 + lo } else { 87 + lo });
        i = i + 1;
    }
    proof {
        assert(out@ =~= hex_encoded(b@));
    }
    out
}

/// The hexadecimal text of `b`, read as characters, is ASCII and encodes in
/// UTF-8 back to the same bytes.
pub proof fn lemma_hex_chars_utf8(b: Seq<u8>)
    ensures
        is_ascii_chars(hex_chars(b)),
        encode_utf8(hex_chars(b)) =~= hex_encoded(b),
{
    let target = hex_chars(b);
    assert forall|i: int| 0 <= i < target.len() implies '\0' <= #[trigger] target[i]
        <= '\u{7f}' by {
        assert(hex_encoded(b)[i] < 128);
    }
    assert(is_ascii_chars(target));
    is_ascii_chars_encode_utf8(target);
    assert(encode_utf8(target) =~= hex_encoded(b));
}

/// Encodes bytes as a lowercase hexadecimal string.
pub fn hex_encode(b: &[u8]) -> (r: String)
    ensures
        r@ == hex_chars(b@),
{
    let bytes = hex_encode_bytes(b);
    proof {
        let target = hex_chars(b@);
        lemma_hex_chars_utf8(b@);
        assert(encode_utf8(target) =~= bytes@);
        encode_utf8_valid_utf8(target);
        encode_utf8_decode_utf8(target);
    }
    match string_from_utf8(bytes) {
        Ok(s) => s,
        Err(_) => {
            proof {
                assert(false);
            }
            String::new()
        },
    }
}

/// Text written by the hexadecimal encoder is valid hexadecimal and decodes
/// back to the original bytes.
pub proof fn lemma_hex_round_trip(b: Seq<u8>)
    ensures
        hex_valid(hex_encoded(b)),
        hex_decoded(hex_encoded(b)) =~= b,
{
    let e = hex_encoded(b);
    assert forall|i: int| 0 <= i < e.len() implies is_hex_digit(#[trigger] e[i]) by {
        let x = b[i / 2];
        assert(x / 16 < 16 && x % 16 < 16);
    }
    assert forall|i: int| 0 <= i < b.len() implies hex_decoded(e)[i] == b[i] by {
        let x = b[i];
        assert(e[2 * i] == hex_digit_ascii(x / 16));
        assert(e[2 * i + 1] == hex_digit_ascii(x % 16));
        assert(x == (x / 16) * 16 + x % 16) by (nonlinear_arith);
    }
}

} // verus!
