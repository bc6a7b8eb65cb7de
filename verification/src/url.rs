//! Percent-encoding and decoding of URL components.

use vstd::prelude::*;
use vstd::utf8::*;
use vstd::string::StringSliceAdditionalSpecFns;
use std::string::FromUtf8Error;

verus! {

broadcast use vstd::utf8::group_utf8_lib;

/// URL encoding/decoding errors.
#[derive(Debug, PartialEq, Eq, Structural)]
pub enum UrlError {
    /// Memory allocation failed.
    AllocError,
    /// Invalid percent-encoded sequence (e.g., missing or non-hex digits).
    InvalidEncoding,
}

/// `std::string::FromUtf8Error`, the error of `String::from_utf8`.
#[verifier::external_type_specification]
#[verifier::external_body]
pub struct ExFromUtf8Error(FromUtf8Error);

/// ASCII letters and digits.
pub open spec fn is_ascii_alnum(b: u8) -> bool {
    (48 <= b <= 57) || (65 <= b <= 90) || (97 <= b <= 122)
}

/// Bytes that `url_encode` leaves unchanged: ASCII letters, digits and
/// `- _ . @ # $ & * ( ) = : / , ; ? + ' ~`.
pub open spec fn is_unreserved(b: u8) -> bool {
    is_ascii_alnum(b) || b == 0x2d || b == 0x5f || b == 0x2e || b == 0x40
        || b == 0x23 || b == 0x24 || b == 0x26 || b == 0x2a || b == 0x28 || b == 0x29
        || b == 0x3d || b == 0x3a || b == 0x2f || b == 0x2c || b == 0x3b || b == 0x3f
        || b == 0x2b || b == 0x27 || b == 0x7e
}

/// Upper-case hexadecimal digit of a nibble.
pub open spec fn hex_digit(x: u8) -> u8
    recommends
        x < 16,
{
    if x > 9 {
        (x + 0x37) as u8
    } else {
        (x + 0x30) as u8
    }
}

/// The encoding of one byte: itself when unreserved, else `%` and two
/// upper-case hex digits.
pub open spec fn encode_byte(b: u8) -> Seq<u8> {
    if is_unreserved(b) {
        seq![b]
    } else {
        seq![0x25u8, hex_digit(b / 16), hex_digit(b % 16)]
    }
}

/// Percent-encoding of a byte sequence.
pub open spec fn percent_encode(s: Seq<u8>) -> Seq<u8>
    decreases s.len(),
{
    if s.len() == 0 {
        seq![]
    } else {
        percent_encode(s.drop_last()) + encode_byte(s.last())
    }
}

/// Value of an ASCII hex digit (`0-9`, `A-F`, `a-f`).
pub open spec fn hex_value(d: u8) -> Option<u8> {
    if 48 <= d <= 57 {
        Some((d - 48) as u8)
    } else if 65 <= d <= 70 {
        Some((d - 65 + 10) as u8)
    } else if 97 <= d <= 102 {
        Some((d - 97 + 10) as u8)
    } else {
        None
    }
}

/// Percent-decoding of a byte sequence: every `%XX` becomes the byte with
/// hex value `XX`, other bytes are copied; `None` when a `%` is not followed
/// by two hex digits.
pub open spec fn percent_decode(s: Seq<u8>) -> Option<Seq<u8>>
    decreases s.len(),
{
    if s.len() == 0 {
        Some(seq![])
    } else if s[0] == 0x25 {
        if s.len() < 3 {
            None
        } else {
            match (hex_value(s[1]), hex_value(s[2]), percent_decode(s.skip(3))) {
                (Some(h), Some(l), Some(rest)) => Some(seq![(h * 16 + l) as u8] + rest),
                _ => None,
            }
        }
    } else {
        match percent_decode(s.skip(1)) {
            Some(rest) => Some(seq![s[0]] + rest),
            None => None,
        }
    }
}

/// The characters of an ASCII byte sequence.
pub open spec fn ascii_chars(s: Seq<u8>) -> Seq<char> {
    s.map_values(|b: u8| b as char)
}

/// Result of `url_decode` on a string whose UTF-8 bytes are `bytes`.
pub open spec fn url_decode_result(bytes: Seq<u8>) -> Result<Seq<char>, UrlError> {
    match percent_decode(bytes) {
        Some(d) => if valid_utf8(d) {
            Ok(decode_utf8(d))
        } else {
            Err(UrlError::InvalidEncoding)
        },
        None => Err(UrlError::InvalidEncoding),
    }
}

/// `String::from_utf8`: succeeds exactly on valid UTF-8, and the string then
/// holds the characters that the bytes encode.
#[verifier::external_body]
pub(crate) fn string_from_utf8(bytes: Vec<u8>) -> (r: Result<String, FromUtf8Error>)
    ensures
        r is Ok <==> valid_utf8(bytes@),
        r matches Ok(s) ==> s@ == decode_utf8(bytes@),
{
    String::from_utf8(bytes)
}

/// Converts a 4-bit nibble to its hexadecimal ASCII character.
pub(crate) fn char_to_hex(x: u8) -> (r: u8)
    requires
        x < 16,
    ensures
        r == hex_digit(x),
{
    if x > 9 {
        x + 0x37
    } else {
        x + 0x30
    }
}

fn is_unreserved_byte(b: u8) -> (r: bool)
    ensures
        r == is_unreserved(b),
{
    (b >= 48 && b <= 57) || (b >= 65 && b <= 90) || (b >= 97 && b <= 122) || b == 0x2d || b
        == 0x5f || b == 0x2e || b == 0x40 || b == 0x23 || b == 0x24 || b == 0x26
        || b == 0x2a || b == 0x28 || b == 0x29 || b == 0x3d || b == 0x3a || b == 0x2f || b
        == 0x2c || b == 0x3b || b == 0x3f || b == 0x2b || b == 0x27 || b == 0x7e
}

proof fn lemma_encode_byte_ascii(b: u8)
    ensures
        forall|i: int| 0 <= i < encode_byte(b).len() ==> encode_byte(b)[i] < 128,
        encode_byte(b).len() <= 3,
{
}

proof fn lemma_percent_encode_ascii(s: Seq<u8>)
    ensures
        forall|i: int| 0 <= i < percent_encode(s).len() ==> percent_encode(s)[i] < 128,
        percent_encode(s).len() <= 3 * s.len(),
    decreases s.len(),
{
    if s.len() > 0 {
        lemma_percent_encode_ascii(s.drop_last());
        lemma_encode_byte_ascii(s.last());
        let p = percent_encode(s.drop_last());
        let e = encode_byte(s.last());
        assert forall|i: int| 0 <= i < percent_encode(s).len() implies percent_encode(s)[i]
            < 128 by {
            if i < p.len() {
                assert(percent_encode(s)[i] == p[i]);
            } else {
                assert(percent_encode(s)[i] == e[i - p.len()]);
            }
        }
    }
}

/// The characters of ASCII bytes are ASCII, and their UTF-8 encoding is
/// the bytes themselves.
pub(crate) proof fn lemma_ascii_roundtrip(s: Seq<u8>)
    requires
        forall|i: int| 0 <= i < s.len() ==> s[i] < 128,
    ensures
        is_ascii_chars(ascii_chars(s)),
        encode_utf8(ascii_chars(s)) == s,
        valid_utf8(s),
        decode_utf8(s) == ascii_chars(s),
{
    let c = ascii_chars(s);
    assert forall|i| 0 <= i < c.len() implies '\0' <= #[trigger] c[i] <= '\u{7f}' by {
        assert(c[i] == s[i] as char);
    }
    is_ascii_chars_encode_utf8(c);
    assert forall|i| 0 <= i < c.len() implies encode_utf8(c)[i] == s[i] by {
        assert(c[i] == s[i] as char);
        assert((s[i] as char) as u8 == s[i]);
    }
    assert(encode_utf8(c) =~= s);
}

/// Percent-encodes a string according to standard URL encoding rules.
///
/// Only alphanumeric characters and the following safe characters are left
/// unchanged: `- _ . @ # $ & * ( ) = : / , ; ? + ' ~`; `!` is escaped
/// too (`hello world!` becomes `hello%20world%21`)
/// All other bytes are replaced by `%XX` where `XX` is the hexadecimal value.
///
/// The output buffer is reserved with room for three bytes per input byte,
/// which `Vec::with_capacity` always grants, so the result is always `Ok`.
pub fn url_encode(input: &str) -> (r: Result<String, UrlError>)
    requires
        input.spec_bytes().len() * 3 <= isize::MAX,
    ensures
        r matches Ok(s) && s@ == ascii_chars(percent_encode(input.spec_bytes())),
{
    let bytes = input.as_bytes();
    let capacity = bytes.len() * 3;
    let mut output: Vec<u8> = Vec::with_capacity(capacity);
    let mut i: usize = 0;
    while i < bytes.len()
        invariant
            bytes@ == input.spec_bytes(),
            i <= bytes.len(),
            output@ == percent_encode(bytes@.take(i as int)),
        decreases bytes.len() - i,
    {
        let b = bytes[i];
        proof {
            assert(bytes@.take(i + 1).drop_last() =~= bytes@.take(i as int));
        }
        if is_unreserved_byte(b) {
            output.push(b);
        } else {
            let hi = b >> 4;
            let lo = b & 0x0F;
            assert(hi == b / 16 && lo == b % 16) by (bit_vector)
                requires
                    hi == b >> 4,
                    lo == b & 0x0F,
            ;
            output.push(0x25);
            output.push(char_to_hex(hi));
            output.push(char_to_hex(lo));
        }
        i = i + 1;
    }
    proof {
        assert(bytes@.take(bytes@.len() as int) =~= bytes@);
        lemma_percent_encode_ascii(bytes@);
        lemma_ascii_roundtrip(output@);
    }
    match string_from_utf8(output) {
        Ok(s) => Ok(s),
        Err(_) => Err(UrlError::InvalidEncoding),
    }
}

/// Converts an ASCII hex digit (0-9, A-F, a-f) to its 4-bit value.
fn hex_digit_value(d: u8) -> (r: Result<u8, UrlError>)
    ensures
        match hex_value(d) {
            Some(v) => r == Ok::<u8, UrlError>(v),
            None => r == Err::<u8, UrlError>(UrlError::InvalidEncoding),
        },
{
    if d >= 48 && d <= 57 {
        Ok(d - 48)
    } else if d >= 65 && d <= 70 {
        Ok(d - 65 + 10)
    } else if d >= 97 && d <= 102 {
        Ok(d - 97 + 10)
    } else {
        Err(UrlError::InvalidEncoding)
    }
}

/// Decodes a percent-encoded string.
///
/// Every `%XX` sequence is replaced by the byte with hexadecimal value `XX`.
/// Non-`%` characters are copied verbatim.
///
/// Returns `Err(UrlError::InvalidEncoding)` if a `%` is not followed by exactly
/// two hexadecimal digits, or if the resulting byte sequence is not valid UTF-8.
pub fn url_decode(input: &str) -> (r: Result<String, UrlError>)
    requires
        input.spec_bytes().len() <= isize::MAX,
    ensures
        match url_decode_result(input.spec_bytes()) {
            Ok(chars) => r matches Ok(s) && s@ == chars,
            Err(e) => r == Err::<String, UrlError>(e),
        },
{
    let bytes = input.as_bytes();
    let mut output: Vec<u8> = Vec::with_capacity(bytes.len());
    let mut i: usize = 0;
    proof {
        assert(bytes@.skip(0) =~= bytes@);
        match percent_decode(bytes@) {
            Some(rest) => {
                assert(output@ + rest =~= rest);
            },
            None => {},
        }
    }
    while i < bytes.len()
        invariant
            bytes@ == input.spec_bytes(),
            bytes.len() <= isize::MAX,
            i <= bytes.len(),
            percent_decode(bytes@) == match percent_decode(bytes@.skip(i as int)) {
                Some(rest) => Some(output@ + rest),
                None => None::<Seq<u8>>,
            },
        decreases bytes.len() - i,
    {
        let ghost s = bytes@.skip(i as int);
        if bytes[i] == 0x25 {
            if i + 2 >= bytes.len() {
                return Err(UrlError::InvalidEncoding);
            }
            let high = bytes[i + 1];
            let low = bytes[i + 2];
            proof {
                assert(s[1] == high && s[2] == low);
                assert(s.skip(3) =~= bytes@.skip(i + 3));
            }
            let h = match hex_digit_value(high) {
                Ok(v) => v,
                Err(e) => {
                    return Err(e);
                },
            };
            let l = match hex_digit_value(low) {
                Ok(v) => v,
                Err(e) => {
                    return Err(e);
                },
            };
            let hex_byte = (h << 4) | l;
            assert(hex_byte == h * 16 + l) by (bit_vector)
                requires
                    hex_byte == (h << 4) | l,
                    h < 16,
                    l < 16,
            ;
            proof {
                let ghost old_out = output@;
                match percent_decode(bytes@.skip(i + 3)) {
                    Some(rest) => {
                        assert(old_out + (seq![hex_byte] + rest) =~= old_out.push(hex_byte)
                            + rest);
                    },
                    None => {},
                }
            }
            output.push(hex_byte);
            i = i + 3;
        } else {
            proof {
                assert(s.skip(1) =~= bytes@.skip(i + 1));
                match percent_decode(bytes@.skip(i + 1)) {
                    Some(rest) => {
                        assert(output@ + (seq![bytes@[i as int]] + rest) =~= output@.push(
                            bytes@[i as int],
                        ) + rest);
                    },
                    None => {},
                }
            }
            output.push(bytes[i]);
            i = i + 1;
        }
    }
    proof {
        assert(bytes@.skip(i as int) =~= Seq::<u8>::empty());
        assert(output@ + Seq::<u8>::empty() =~= output@);
    }
    match string_from_utf8(output) {
        Ok(s) => Ok(s),
        Err(_) => Err(UrlError::InvalidEncoding),
    }
}


proof fn lemma_encode_concat(s: Seq<u8>, t: Seq<u8>)
    ensures
        percent_encode(s + t) == percent_encode(s) + percent_encode(t),
    decreases t.len(),
{
    if t.len() == 0 {
        assert(s + t =~= s);
        assert(percent_encode(s) + percent_encode(t) =~= percent_encode(s));
    } else {
        assert((s + t).drop_last() =~= s + t.drop_last());
        assert((s + t).last() == t.last());
        lemma_encode_concat(s, t.drop_last());
        assert(percent_encode(s) + percent_encode(t.drop_last()) + encode_byte(t.last())
            =~= percent_encode(s) + (percent_encode(t.drop_last()) + encode_byte(t.last())));
    }
}

proof fn lemma_hex_digit_value(n: u8)
    requires
        n < 16,
    ensures
        hex_value(hex_digit(n)) == Some(n),
{
}

proof fn lemma_decode_after_byte(x: u8, rest: Seq<u8>)
    ensures
        percent_decode(encode_byte(x) + rest) == match percent_decode(rest) {
            Some(r) => Some(seq![x] + r),
            None => None::<Seq<u8>>,
        },
{
    let s = encode_byte(x) + rest;
    if is_unreserved(x) {
        assert(s[0] == x);
        assert(s.skip(1) =~= rest);
    } else {
        assert(s[0] == 0x25u8);
        assert(s[1] == hex_digit(x / 16));
        assert(s[2] == hex_digit(x % 16));
        lemma_hex_digit_value(x / 16);
        lemma_hex_digit_value(x % 16);
        assert(s.skip(3) =~= rest);
        assert(((x / 16) * 16 + x % 16) as u8 == x);
    }
}

proof fn lemma_decode_encode(b: Seq<u8>)
    ensures
        percent_decode(percent_encode(b)) == Some(b),
    decreases b.len(),
{
    if b.len() > 0 {
        let tail = b.skip(1);
        assert(b =~= seq![b[0]] + tail);
        lemma_encode_concat(seq![b[0]], tail);
        assert(seq![b[0]].drop_last() =~= Seq::<u8>::empty());
        assert(seq![b[0]].last() == b[0]);
        assert(percent_encode(seq![b[0]].drop_last()) =~= Seq::<u8>::empty());
        assert(percent_encode(seq![b[0]]) =~= encode_byte(b[0]));
        lemma_decode_encode(tail);
        lemma_decode_after_byte(b[0], percent_encode(tail));
    }
}

/// Decoding undoes encoding: for every string `input`, the string that
/// `url_encode` produces from it (whose characters are
/// `ascii_chars(percent_encode(..))`) is decoded by `url_decode` back to
/// `input`.
pub proof fn lemma_url_decode_inverts_encode(input: Seq<char>)
    ensures
        url_decode_result(encode_utf8(ascii_chars(percent_encode(encode_utf8(input)))))
            == Ok::<Seq<char>, UrlError>(input),
{
    let e = percent_encode(encode_utf8(input));
    lemma_percent_encode_ascii(encode_utf8(input));
    lemma_ascii_roundtrip(e);
    lemma_decode_encode(encode_utf8(input));
}

/// What encoding does with each byte, stated apart from the encoder's own
/// tables: the bytes kept as they are are exactly the ASCII digits
/// (`0x30..=0x39`), letters (`0x41..=0x5A`, `0x61..=0x7A`) and `-` `_` `.`
/// `@` `#` `$` `&` `*` `(` `)` `=` `:` `/` `,` `;` `?` `+` `'` `~`; every
/// other byte (such as `<`, `!`, a space or a non-ASCII byte) becomes `%`
/// and its two upper-case hex digits. Appending a byte to the input appends
/// its encoding to the output.
pub proof fn lemma_url_encode_byte_law(s: Seq<u8>, b: u8)
    ensures
        ({
            let kept = (0x30 <= b <= 0x39) || (0x41 <= b <= 0x5a) || (0x61 <= b <= 0x7a) || b == 0x2d
                || b == 0x5f || b == 0x2e || b == 0x40 || b == 0x23 || b == 0x24 || b == 0x26
                || b == 0x2a || b == 0x28 || b == 0x29 || b == 0x3d || b == 0x3a || b == 0x2f
                || b == 0x2c || b == 0x3b || b == 0x3f || b == 0x2b || b == 0x27 || b == 0x7e;
            let hi: int = b as int / 16;
            let lo: int = b as int % 16;
            let hex_hi: u8 = (if hi < 10 { hi + 48 } else { hi + 55 }) as u8;
            let hex_lo: u8 = (if lo < 10 { lo + 48 } else { lo + 55 }) as u8;
            percent_encode(s.push(b)) == percent_encode(s) + if kept {
                seq![b]
            } else {
                seq![0x25u8, hex_hi, hex_lo]
            }
        }),
{
    assert(s.push(b).drop_last() =~= s);
}

/// Every byte that `url_encode` emits is an unreserved byte, `%`, or an
/// upper-case hexadecimal digit, and the output is at most three times as
/// long as the input.
pub proof fn lemma_url_encode_output_safe(input: Seq<u8>)
    ensures
        forall|i: int|
            0 <= i < percent_encode(input).len() ==> {
                let c = #[trigger] percent_encode(input)[i];
                is_unreserved(c) || c == 0x25 || (48 <= c <= 57) || (65 <= c <= 70)
            },
        percent_encode(input).len() <= 3 * input.len(),
    decreases input.len(),
{
    lemma_percent_encode_ascii(input);
    if input.len() > 0 {
        lemma_url_encode_output_safe(input.drop_last());
        let p = percent_encode(input.drop_last());
        let e = encode_byte(input.last());
        assert forall|i: int| 0 <= i < percent_encode(input).len() implies {
            let c = #[trigger] percent_encode(input)[i];
            is_unreserved(c) || c == 0x25 || (48 <= c <= 57) || (65 <= c <= 70)
        } by {
            if i < p.len() {
                assert(percent_encode(input)[i] == p[i]);
            } else {
                assert(percent_encode(input)[i] == e[i - p.len()]);
            }
        }
    }
}

} // verus!
