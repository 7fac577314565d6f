//! Hex normalizer: turns the bytes of a quote file into the raw quote.
//!
//! Quotes circulate as binary dumps and as hex dumps, the latter optionally
//! prefixed with `0x` and optionally ended by one newline. Everything after
//! this module works on raw bytes only.

use vstd::prelude::*;
use vstd::slice::*;
use vstd::utf8::{encode_utf8, is_ascii_chars, is_ascii_chars_encode_utf8};

verus! {

/// Why a hex text could not be decoded.
#[derive(Debug, Clone, Copy, PartialEq, Eq, Structural)]
pub enum DecodeError {
    /// The byte `c` at position `index` of the text is not a hex digit.
    InvalidHexCharacter { c: char, index: usize },
    /// The text has an odd number of digits.
    OddLength,
    /// The text does not fill a container of fixed size. Decoding into a
    /// vector never reports this.
    InvalidStringLength,
}

/// What `hex` prints for the error that the byte `c` at position `index` is
/// no hex digit.
pub uninterp spec fn invalid_character_message(c: char, index: usize) -> Seq<char>;

/// The message of a decode error.
pub open spec fn decode_error_message(e: DecodeError) -> Seq<char> {
    match e {
        DecodeError::InvalidHexCharacter { c, index } => invalid_character_message(c, index),
        DecodeError::OddLength => "Odd number of digits"@,
        DecodeError::InvalidStringLength => "Invalid string length"@,
    }
}

/// Calls the `Display` impl of `hex::FromHexError`, which prints a fixed
/// text for an odd length and for a wrong length, and for a bad character a
/// text made of the character and its position. The last is given a name.
#[verifier::external_body]
pub(crate) fn describe_decode_error(e: DecodeError) -> (r: String)
    ensures
        e is OddLength ==> r@ == "Odd number of digits"@,
        e is InvalidStringLength ==> r@ == "Invalid string length"@,
        e matches DecodeError::InvalidHexCharacter { c, index } ==> r@
            == invalid_character_message(c, index),
{
    let outside = match e {
        DecodeError::InvalidHexCharacter { c, index } => {
            hex::FromHexError::InvalidHexCharacter { c, index }
        },
        DecodeError::OddLength => hex::FromHexError::OddLength,
        DecodeError::InvalidStringLength => hex::FromHexError::InvalidStringLength,
    };
    format!("{}", outside)
}

impl DecodeError {
    /// The error in words.
    pub fn message(&self) -> (text: String)
        ensures
            text@ == decode_error_message(*self),
    {
        describe_decode_error(*self)
    }
}

/// `c` is one of `0`-`9`, `A`-`F`, `a`-`f`.
pub open spec fn is_hex_digit(c: u8) -> bool {
    (0x30 <= c <= 0x39) || (0x41 <= c <= 0x46) || (0x61 <= c <= 0x66)
}

/// The number that the hex digit `c` stands for.
pub open spec fn hex_digit_value(c: u8) -> int {
    if 0x30 <= c <= 0x39 {
        c - 0x30
    } else if 0x41 <= c <= 0x46 {
        c - 0x41 + 10
    } else {
        c - 0x61 + 10
    }
}

/// The lower-case hex digit for `n`, where `0 <= n < 16`.
pub open spec fn hex_digit(n: int) -> u8 {
    if n < 10 {
        (0x30 + n) as u8
    } else {
        (0x61 + n - 10) as u8
    }
}

/// How many hex digits `text` begins with.
pub open spec fn leading_hex_digits(text: Seq<u8>) -> nat
    decreases text.len(),
{
    if text.len() > 0 && is_hex_digit(text[0]) {
        1 + leading_hex_digits(text.drop_first())
    } else {
        0
    }
}

/// `text` is an even number of hex digits and nothing else.
pub open spec fn is_hex_text(text: Seq<u8>) -> bool {
    text.len() % 2 == 0 && leading_hex_digits(text) == text.len()
}

/// `text` has an odd length or holds a byte that is no hex digit.
pub open spec fn is_malformed(text: Seq<u8>) -> bool {
    text.len() % 2 != 0 || exists|i: int| 0 <= i < text.len() && !is_hex_digit(#[trigger] text[i])
}

/// The bytes that the digit pairs of `text` stand for, first digit high.
pub open spec fn hex_pairs(text: Seq<u8>) -> Seq<u8> {
    Seq::new(
        text.len() / 2,
        |i: int| (16 * hex_digit_value(text[2 * i]) + hex_digit_value(text[2 * i + 1])) as u8,
    )
}

/// What decoding `text` as hexadecimal gives: an odd length is reported
/// first, then the first byte that is no hex digit.
pub open spec fn hex_decoding(text: Seq<u8>) -> Result<Seq<u8>, DecodeError> {
    if text.len() % 2 != 0 {
        Err(DecodeError::OddLength)
    } else if leading_hex_digits(text) < text.len() {
        let index = leading_hex_digits(text) as int;
        Err(DecodeError::InvalidHexCharacter { c: text[index] as char, index: index as usize })
    } else {
        Ok(hex_pairs(text))
    }
}

/// The lower-case hex digits of `bytes`, two per byte, high digit first.
pub open spec fn hex_digits(bytes: Seq<u8>) -> Seq<u8> {
    Seq::new(
        2 * bytes.len(),
        |i: int|
            if i % 2 == 0 {
                hex_digit(bytes[i / 2] as int / 16)
            } else {
                hex_digit(bytes[i / 2] as int % 16)
            },
    )
}

/// `hex_digits(bytes)` as characters.
pub open spec fn hex_string(bytes: Seq<u8>) -> Seq<char> {
    Seq::new(2 * bytes.len(), |i: int| hex_digits(bytes)[i] as char)
}

/// `s` begins with the two bytes `0x`.
pub open spec fn has_hex_prefix(s: Seq<u8>) -> bool {
    s.len() >= 2 && s[0] == 0x30 && s[1] == 0x78
}

/// `s` ends with a line feed.
pub open spec fn ends_with_newline(s: Seq<u8>) -> bool {
    s.len() >= 1 && s[s.len() - 1] == 0x0a
}

/// `s` without one leading `0x`, if it has one.
pub open spec fn without_hex_prefix(s: Seq<u8>) -> Seq<u8> {
    if has_hex_prefix(s) {
        s.skip(2)
    } else {
        s
    }
}

/// `s` without one trailing line feed, if it has one.
pub open spec fn without_newline(s: Seq<u8>) -> Seq<u8> {
    if ends_with_newline(s) {
        s.drop_last()
    } else {
        s
    }
}

/// The digits of a hex file: its content without the prefix, then without
/// the newline.
pub open spec fn hex_payload(content: Seq<u8>) -> Seq<u8> {
    without_newline(without_hex_prefix(content))
}

/// The raw quote that a file's content stands for.
pub open spec fn normalize(content: Seq<u8>, is_hex: bool) -> Result<Seq<u8>, DecodeError> {
    if is_hex {
        hex_decoding(hex_payload(content))
    } else {
        Ok(content)
    }
}

/// `digits` written out as a hex file: after `0x` if `prefixed`, before a
/// line feed if `newline`.
pub open spec fn framed(digits: Seq<u8>, prefixed: bool, newline: bool) -> Seq<u8> {
    (if prefixed {
        seq![0x30u8, 0x78u8]
    } else {
        Seq::<u8>::empty()
    }) + digits + (if newline {
        seq![0x0au8]
    } else {
        Seq::<u8>::empty()
    })
}

/// The result of a decoding as specifications see it.
pub open spec fn decoding_view(r: Result<Vec<u8>, DecodeError>) -> Result<Seq<u8>, DecodeError> {
    match r {
        Ok(bytes) => Ok(bytes@),
        Err(e) => Err(e),
    }
}

/// Calls `hex::decode`. The contract restates that function: it refuses a
/// text of odd length with `OddLength`; otherwise it reads the digit pairs
/// in order and stops at the first byte that is no hex digit, which it
/// reports with its position; otherwise each pair gives one byte, the first
/// digit being the high one. Digits of either case are accepted.
#[verifier::external_body]
pub(crate) fn decode_hex(text: &[u8]) -> (r: Result<Vec<u8>, DecodeError>)
    ensures
        decoding_view(r) == hex_decoding(text@),
{
    match hex::decode(text) {
        Ok(bytes) => Ok(bytes),
        Err(hex::FromHexError::InvalidHexCharacter { c, index }) => {
            Err(DecodeError::InvalidHexCharacter { c, index })
        },
        Err(hex::FromHexError::OddLength) => Err(DecodeError::OddLength),
        Err(hex::FromHexError::InvalidStringLength) => Err(DecodeError::InvalidStringLength),
    }
}

/// Calls `hex::encode`: two lower-case digits per byte, high digit first.
#[verifier::external_body]
pub(crate) fn encode_hex(bytes: &[u8]) -> (r: String)
    ensures
        r@ == hex_string(bytes@),
{
    hex::encode(bytes)
}

/// Drops one leading `0x` from `s`, if there is one.
fn strip_hex_prefix(s: &[u8]) -> (r: &[u8])
    ensures
        r@ == without_hex_prefix(s@),
{
    if s.len() >= 2 && s[0] == 0x30 && s[1] == 0x78 {
        slice_subrange(s, 2, s.len())
    } else {
        s
    }
}

/// Drops one trailing line feed from `s`, if there is one.
fn strip_newline(s: &[u8]) -> (r: &[u8])
    ensures
        r@ == without_newline(s@),
{
    if s.len() >= 1 && s[s.len() - 1] == 0x0a {
        slice_subrange(s, 0, s.len() - 1)
    } else {
        s
    }
}

/// Normalizes the content of a quote file. With `is_hex` unset the content
/// is the quote. With `is_hex` set, one leading `0x` and then one trailing
/// line feed are dropped and the rest is decoded as hexadecimal.
pub fn hex_decode(input: &[u8], is_hex: bool) -> (r: Result<Vec<u8>, DecodeError>)
    ensures
        decoding_view(r) == normalize(input@, is_hex),
        !is_hex ==> decoding_view(r) == Ok::<Seq<u8>, DecodeError>(input@),
{
    if is_hex {
        let payload = strip_newline(strip_hex_prefix(input));
        decode_hex(payload)
    } else {
        Ok(slice_to_vec(input))
    }
}

/// The first `leading_hex_digits(text)` bytes of `text` are hex digits, and
/// the byte after them, if there is one, is not.
pub proof fn lemma_leading_hex_digits(text: Seq<u8>)
    ensures
        leading_hex_digits(text) <= text.len(),
        forall|j: int| 0 <= j < leading_hex_digits(text) ==> is_hex_digit(#[trigger] text[j]),
        leading_hex_digits(text) < text.len() ==> !is_hex_digit(
            text[leading_hex_digits(text) as int],
        ),
    decreases text.len(),
{
    if text.len() > 0 && is_hex_digit(text[0]) {
        let rest = text.drop_first();
        lemma_leading_hex_digits(rest);
        assert forall|j: int| 0 <= j < leading_hex_digits(text) implies is_hex_digit(
            #[trigger] text[j],
        ) by {
            if j > 0 {
                assert(text[j] == rest[j - 1]);
            }
        }
        if leading_hex_digits(text) < text.len() {
            assert(text[leading_hex_digits(text) as int] == rest[leading_hex_digits(rest) as int]);
        }
    }
}

/// A text of hex digits only begins with as many hex digits as it is long.
pub proof fn lemma_all_hex_digits(text: Seq<u8>)
    requires
        forall|j: int| 0 <= j < text.len() ==> is_hex_digit(#[trigger] text[j]),
    ensures
        leading_hex_digits(text) == text.len(),
    decreases text.len(),
{
    if text.len() > 0 {
        let rest = text.drop_first();
        assert forall|j: int| 0 <= j < rest.len() implies is_hex_digit(#[trigger] rest[j]) by {
            assert(rest[j] == text[j + 1]);
        }
        lemma_all_hex_digits(rest);
    }
}

/// A text is malformed exactly when it is not an even number of hex digits.
pub proof fn lemma_malformed(text: Seq<u8>)
    ensures
        is_malformed(text) <==> !is_hex_text(text),
{
    lemma_leading_hex_digits(text);
    if !is_malformed(text) {
        lemma_all_hex_digits(text);
    }
}

/// Content that is not marked as hex is the quote, byte for byte.
pub proof fn theorem_raw_content_unchanged(content: Seq<u8>)
    ensures
        normalize(content, false) == Ok::<Seq<u8>, DecodeError>(content),
{
}

/// Hex content decodes exactly when what remains after the prefix and the
/// newline is an even number of hex digits. An odd length gives `OddLength`;
/// an even length with a byte that is no hex digit gives
/// `InvalidHexCharacter` for the first such byte.
pub proof fn theorem_hex_content_outcome(content: Seq<u8>)
    ensures
        normalize(content, true) is Ok <==> is_hex_text(hex_payload(content)),
        is_hex_text(hex_payload(content)) ==> normalize(content, true) == Ok::<
            Seq<u8>,
            DecodeError,
        >(hex_pairs(hex_payload(content))),
        normalize(content, true) is Err <==> is_malformed(hex_payload(content)),
        normalize(content, true) != Err::<Seq<u8>, DecodeError>(DecodeError::InvalidStringLength),
        hex_payload(content).len() % 2 != 0 ==> normalize(content, true) == Err::<
            Seq<u8>,
            DecodeError,
        >(DecodeError::OddLength),
        hex_payload(content).len() % 2 == 0 && !is_hex_text(hex_payload(content)) ==> ({
            let payload = hex_payload(content);
            let first = leading_hex_digits(payload) as int;
            &&& first < payload.len()
            &&& !is_hex_digit(payload[first])
            &&& forall|j: int| 0 <= j < first ==> is_hex_digit(#[trigger] payload[j])
            &&& normalize(content, true) == Err::<Seq<u8>, DecodeError>(
                DecodeError::InvalidHexCharacter { c: payload[first] as char, index: first as usize },
            )
        }),
{
    lemma_leading_hex_digits(hex_payload(content));
    lemma_malformed(hex_payload(content));
}

/// Each digit of `hex_digits(bytes)` is a hex digit, and the digits of one
/// byte stand for its high and low half.
pub proof fn lemma_hex_digits(bytes: Seq<u8>)
    ensures
        hex_digits(bytes).len() == 2 * bytes.len(),
        forall|j: int| 0 <= j < 2 * bytes.len() ==> is_hex_digit(#[trigger] hex_digits(bytes)[j]),
        forall|i: int|
            0 <= i < bytes.len() ==> 16 * hex_digit_value(#[trigger] hex_digits(bytes)[2 * i])
                + hex_digit_value(hex_digits(bytes)[2 * i + 1]) == bytes[i],
{
    let digits = hex_digits(bytes);
    assert forall|j: int| 0 <= j < 2 * bytes.len() implies is_hex_digit(#[trigger] digits[j]) by {
        lemma_byte_digits(bytes[j / 2]);
    }
    assert forall|i: int| 0 <= i < bytes.len() implies 16 * hex_digit_value(
        #[trigger] digits[2 * i],
    ) + hex_digit_value(digits[2 * i + 1]) == bytes[i] by {
        lemma_byte_digits(bytes[i]);
        assert((2 * i) % 2 == 0 && (2 * i) / 2 == i);
        assert((2 * i + 1) % 2 == 1 && (2 * i + 1) / 2 == i);
    }
}

/// The two hex digits of one byte are hex digits and stand for its halves.
proof fn lemma_byte_digits(b: u8)
    ensures
        is_hex_digit(hex_digit(b as int / 16)),
        is_hex_digit(hex_digit(b as int % 16)),
        hex_digit_value(hex_digit(b as int / 16)) == b as int / 16,
        hex_digit_value(hex_digit(b as int % 16)) == b as int % 16,
        16 * (b as int / 16) + b as int % 16 == b,
{
    let hi = b as int / 16;
    let lo = b as int % 16;
    assert(0 <= hi < 16 && 0 <= lo < 16);
}

/// Written out as UTF-8, the hex string of `bytes` is its hex digits.
pub proof fn lemma_hex_string_bytes(bytes: Seq<u8>)
    ensures
        encode_utf8(hex_string(bytes)) == hex_digits(bytes),
{
    let text = hex_string(bytes);
    lemma_hex_digits(bytes);
    assert forall|i: int| 0 <= i < text.len() implies '\0' <= #[trigger] text[i] <= '\u{7f}' by {
        assert(is_hex_digit(hex_digits(bytes)[i]));
    }
    assert(is_ascii_chars(text));
    is_ascii_chars_encode_utf8(text);
    assert forall|i: int| 0 <= i < text.len() implies encode_utf8(text)[i] == hex_digits(
        bytes,
    )[i] by {
        assert(is_hex_digit(hex_digits(bytes)[i]));
        assert(text[i] as u8 == encode_utf8(text)[i]);
    }
    assert(encode_utf8(text) =~= hex_digits(bytes));
}

/// Encoding then decoding gives the bytes back, whether or not the digits
/// are written after `0x` and whether or not a line feed follows them.
pub proof fn theorem_hex_round_trip(bytes: Seq<u8>, prefixed: bool, newline: bool)
    ensures
        hex_payload(framed(hex_digits(bytes), prefixed, newline)) == hex_digits(bytes),
        normalize(framed(hex_digits(bytes), prefixed, newline), true) == Ok::<
            Seq<u8>,
            DecodeError,
        >(bytes),
        normalize(framed(encode_utf8(hex_string(bytes)), prefixed, newline), true) == Ok::<
            Seq<u8>,
            DecodeError,
        >(bytes),
{
    let digits = hex_digits(bytes);
    lemma_hex_string_bytes(bytes);
    lemma_hex_digits(bytes);
    if digits.len() >= 2 {
        assert(is_hex_digit(digits[1]));
    }
    if digits.len() >= 1 {
        assert(is_hex_digit(digits[digits.len() - 1]));
    }
    lemma_framing_undone(digits, prefixed, newline);
    lemma_all_hex_digits(digits);
    assert(hex_pairs(digits) =~= bytes);
}

/// Stripping undoes framing, unless the digits themselves begin with `0x`
/// and were written without a prefix, or themselves end with a line feed and
/// were written without one.
pub proof fn lemma_framing_undone(digits: Seq<u8>, prefixed: bool, newline: bool)
    requires
        prefixed || !has_hex_prefix(digits),
        newline || !ends_with_newline(digits),
    ensures
        hex_payload(framed(digits, prefixed, newline)) == digits,
{
    let file = framed(digits, prefixed, newline);
    let tail = if newline {
        seq![0x0au8]
    } else {
        Seq::<u8>::empty()
    };
    if prefixed {
        assert(file[0] == 0x30 && file[1] == 0x78);
        assert(file.skip(2) =~= digits + tail);
    } else {
        assert(file =~= digits + tail);
        if digits.len() >= 2 {
            assert(file[0] == digits[0] && file[1] == digits[1]);
        } else if file.len() >= 2 {
            assert(file[1] == 0x0a);
        }
    }
    let rest = without_hex_prefix(file);
    assert(rest =~= digits + tail);
    if newline {
        assert(rest[rest.len() - 1] == 0x0a);
        assert(rest.drop_last() =~= digits);
    } else {
        assert(rest =~= digits);
    }
}

/// A text of odd length, or with a byte that is no hex digit, is refused,
/// with or without a prefix and with or without a newline, as long as
/// stripping removes the framing only: the text, written without a prefix,
/// does not itself begin with `0x`, and, written without a newline, does not
/// itself end with one.
pub proof fn theorem_malformed_text_rejected(text: Seq<u8>, prefixed: bool, newline: bool)
    requires
        is_malformed(text),
        prefixed || !has_hex_prefix(text),
        newline || !ends_with_newline(text),
    ensures
        normalize(framed(text, prefixed, newline), true) is Err,
{
    lemma_framing_undone(text, prefixed, newline);
    theorem_hex_content_outcome(framed(text, prefixed, newline));
}

} // verus!
