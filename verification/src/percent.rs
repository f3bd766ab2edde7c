//! Percent-encoding of path components.
//!
//! A component is written into an identifier with every byte that is not an
//! ASCII letter or digit replaced by `%` and two upper-case hexadecimal
//! digits. Reading a segment back replaces every `%` that two hexadecimal
//! digits follow by the byte they spell, and keeps all other bytes.

use vstd::prelude::*;

verus! {

/// The byte `%`.
pub const PERCENT: u8 = 0x25;

/// Whether `b` is an ASCII letter or digit.
pub open spec fn is_alphanumeric(b: u8) -> bool {
    (0x30 <= b <= 0x39) || (0x41 <= b <= 0x5a) || (0x61 <= b <= 0x7a)
}

/// The upper-case hexadecimal digit for `n`, which is below 16.
pub open spec fn hex_digit(n: u8) -> u8
    recommends
        n < 16,
{
    if n < 10 {
        (0x30 + n) as u8
    } else {
        (0x41 + (n - 10)) as u8
    }
}

/// The value of the hexadecimal digit `d`, in either case.
pub open spec fn hex_value(d: u8) -> Option<u8> {
    if 0x30 <= d <= 0x39 {
        Some((d - 0x30) as u8)
    } else if 0x41 <= d <= 0x46 {
        Some((d - 0x41 + 10) as u8)
    } else if 0x61 <= d <= 0x66 {
        Some((d - 0x61 + 10) as u8)
    } else {
        None
    }
}

/// `%` and the two digits of `b`.
pub open spec fn escape(b: u8) -> Seq<u8> {
    seq![PERCENT, hex_digit(b / 16), hex_digit(b % 16)]
}

/// What one byte becomes in an identifier.
pub open spec fn encoded_byte(b: u8) -> Seq<u8> {
    if is_alphanumeric(b) {
        seq![b]
    } else {
        escape(b)
    }
}

/// The percent-encoding of `bytes`.
pub open spec fn encoded(bytes: Seq<u8>) -> Seq<u8>
    decreases bytes.len(),
{
    if bytes.len() == 0 {
        Seq::empty()
    } else {
        encoded_byte(bytes[0]) + encoded(bytes.skip(1))
    }
}

/// Whether `text` starts with `%` and two hexadecimal digits.
pub open spec fn starts_with_escape(text: Seq<u8>) -> bool {
    &&& text.len() >= 3
    &&& text[0] == PERCENT
    &&& hex_value(text[1]) is Some
    &&& hex_value(text[2]) is Some
}

/// The byte that the escape at the start of `text` spells.
pub open spec fn escaped_value(text: Seq<u8>) -> u8
    recommends
        starts_with_escape(text),
{
    (hex_value(text[1]).unwrap() * 16 + hex_value(text[2]).unwrap()) as u8
}

/// The percent-decoding of `text`.
pub open spec fn decoded(text: Seq<u8>) -> Seq<u8>
    decreases text.len(),
{
    if text.len() == 0 {
        Seq::empty()
    } else if starts_with_escape(text) {
        seq![escaped_value(text)] + decoded(text.skip(3))
    } else {
        seq![text[0]] + decoded(text.skip(1))
    }
}

/// Whether every byte of `text` is an ASCII letter, a digit or `%`.
pub open spec fn is_identifier_safe(text: Seq<u8>) -> bool {
    forall|i: int| 0 <= i < text.len() ==> is_alphanumeric(#[trigger] text[i]) || text[i] == PERCENT
}

/// `percent_encoding::percent_encode` with the set `NON_ALPHANUMERIC`,
/// collected into bytes. The set holds every ASCII byte but letters and
/// digits, and the function also escapes every byte above 0x7f, so the
/// result keeps letters and digits and writes each other byte as `%` and
/// its two upper-case hexadecimal digits.
#[verifier::external_body]
fn percent_encode_non_alphanumeric(input: &[u8]) -> (out: Vec<u8>)
    ensures
        out@ == encoded(input@),
{
    percent_encoding::percent_encode(input, percent_encoding::NON_ALPHANUMERIC)
        .to_string()
        .into_bytes()
}

/// `percent_encoding::percent_decode`, collected into bytes. Every `%`
/// followed by two hexadecimal digits, in either case, becomes the byte they
/// spell; every other byte, a stray `%` too, is kept.
#[verifier::external_body]
fn percent_decode_bytes(input: &[u8]) -> (out: Vec<u8>)
    ensures
        out@ == decoded(input@),
{
    percent_encoding::percent_decode(input).collect()
}

/// Percent-encodes one path component.
pub fn encode_component(component: &[u8]) -> (segment: Vec<u8>)
    ensures
        segment@ == encoded(component@),
        is_identifier_safe(segment@),
        decoded(segment@) == component@,
{
    proof {
        lemma_encoded_is_safe(component@);
        lemma_decode_inverts_encode(component@);
    }
    percent_encode_non_alphanumeric(component)
}

/// Percent-decodes one identifier segment.
pub fn decode_segment(segment: &[u8]) -> (component: Vec<u8>)
    ensures
        component@ == decoded(segment@),
{
    percent_decode_bytes(segment)
}

/// Each hexadecimal digit written by the encoder reads back as its value.
pub proof fn lemma_hex_digit_value(n: u8)
    requires
        n < 16,
    ensures
        hex_value(hex_digit(n)) == Some(n),
        is_alphanumeric(hex_digit(n)),
{
}

/// No byte but ASCII letters, digits and `%` occurs in an encoding: a space,
/// a separator or a byte above 0x7f never stands there unescaped.
pub proof fn lemma_encoded_is_safe(bytes: Seq<u8>)
    ensures
        is_identifier_safe(encoded(bytes)),
    decreases bytes.len(),
{
    if bytes.len() > 0 {
        lemma_encoded_is_safe(bytes.skip(1));
        let head = encoded_byte(bytes[0]);
        let tail = encoded(bytes.skip(1));
        lemma_hex_digit_value(bytes[0] / 16);
        lemma_hex_digit_value(bytes[0] % 16);
        assert forall|i: int| 0 <= i < (head + tail).len() implies is_alphanumeric(
            #[trigger] (head + tail)[i],
        ) || (head + tail)[i] == PERCENT by {
            if i >= head.len() {
                assert((head + tail)[i] == tail[i - head.len()]);
            }
        }
    }
}

/// Text of ASCII letters and digits alone is its own encoding and its own
/// decoding.
pub proof fn lemma_alphanumeric_is_untouched(text: Seq<u8>)
    requires
        forall|i: int| 0 <= i < text.len() ==> is_alphanumeric(#[trigger] text[i]),
    ensures
        encoded(text) == text,
        decoded(text) == text,
    decreases text.len(),
{
    if text.len() > 0 {
        let rest = text.skip(1);
        assert forall|i: int| 0 <= i < rest.len() implies is_alphanumeric(#[trigger] rest[i]) by {
            assert(rest[i] == text[i + 1]);
        }
        lemma_alphanumeric_is_untouched(rest);
        assert(is_alphanumeric(text[0]));
        assert(!starts_with_escape(text));
        assert(encoded(text) =~= text);
        assert(decoded(text) =~= text);
    }
}

/// Decoding the encoding of `bytes` gives `bytes` back, whatever they are.
pub proof fn lemma_decode_inverts_encode(bytes: Seq<u8>)
    ensures
        decoded(encoded(bytes)) == bytes,
    decreases bytes.len(),
{
    if bytes.len() > 0 {
        let b = bytes[0];
        let tail = encoded(bytes.skip(1));
        let text = encoded(bytes);
        lemma_decode_inverts_encode(bytes.skip(1));
        if is_alphanumeric(b) {
            assert(text.skip(1) =~= tail);
            assert(!starts_with_escape(text));
        } else {
            lemma_hex_digit_value(b / 16);
            lemma_hex_digit_value(b % 16);
            assert(text.skip(3) =~= tail);
            assert(starts_with_escape(text));
            assert(escaped_value(text) == b) by {
                assert((b / 16) * 16 + b % 16 == b);
            }
        }
        assert(decoded(text) =~= bytes);
    }
}

} // verus!
