//! Base64 in its two dialects: the standard alphabet with padding, and the
//! URL-safe alphabet without. The encoding itself is the `base64` crate's.

use crate::cli::b64::Base64Format;
use crate::utils::string_from_utf8;
use base64::Engine;
use vstd::prelude::*;
use vstd::utf8::*;

verus! {

/// `base64::DecodeError`, the refusal of the `base64` crate's decoding.
/// Nothing is known of what is in it.
#[verifier::external_type_specification]
#[verifier::external_body]
pub struct ExDecodeError(base64::DecodeError);

/// The text that the standard, padded dialect gives for `bytes`: what
/// `STANDARD.encode` of the `base64` crate returns.
pub uninterp spec fn standard_text(bytes: Seq<u8>) -> Seq<char>;

/// The bytes that a text of the standard, padded dialect stands for, if it
/// is well formed: what `STANDARD.decode` of the `base64` crate returns.
pub uninterp spec fn standard_bytes(text: Seq<char>) -> Option<Seq<u8>>;

/// The text that the URL-safe, unpadded dialect gives for `bytes`: what
/// `URL_SAFE_NO_PAD.encode` of the `base64` crate returns.
pub uninterp spec fn url_safe_text(bytes: Seq<u8>) -> Seq<char>;

/// The bytes that a text of the URL-safe, unpadded dialect stands for, if
/// it is well formed: what `URL_SAFE_NO_PAD.decode` of the `base64` crate
/// returns.
pub uninterp spec fn url_safe_bytes(text: Seq<char>) -> Option<Seq<u8>>;

/// Length of the padded encoding of `n` bytes: four characters for every
/// three bytes, the last group filled up.
pub open spec fn padded_len(n: nat) -> nat {
    (n + 2) / 3 * 4
}

/// Length of the unpadded encoding of `n` bytes: one character for every six
/// bits, rounded up.
pub open spec fn unpadded_len(n: nat) -> nat {
    (4 * n + 2) / 3
}

/// `STANDARD.encode` of the `base64` crate. Trusted: the result is named
/// `standard_text`, has the padded length, and decodes back to the input.
/// The crate panics where the encoded length does not fit in `usize`.
#[verifier::external_body]
pub(crate) fn standard_encode(bytes: &[u8]) -> (text: String)
    requires
        padded_len(bytes@.len()) <= usize::MAX,
    ensures
        text@ == standard_text(bytes@),
        text@.len() == padded_len(bytes@.len()),
        standard_bytes(text@) == Some(bytes@),
{
    base64::engine::general_purpose::STANDARD.encode(bytes)
}

/// `URL_SAFE_NO_PAD.encode` of the `base64` crate. Trusted: the result is
/// named `url_safe_text`, has the unpadded length, and decodes back to the
/// input. The crate panics where the encoded length does not fit in `usize`.
#[verifier::external_body]
pub(crate) fn url_safe_encode(bytes: &[u8]) -> (text: String)
    requires
        unpadded_len(bytes@.len()) <= usize::MAX,
    ensures
        text@ == url_safe_text(bytes@),
        text@.len() == unpadded_len(bytes@.len()),
        url_safe_bytes(text@) == Some(bytes@),
{
    base64::engine::general_purpose::URL_SAFE_NO_PAD.encode(bytes)
}

/// `STANDARD.decode` of the `base64` crate. Trusted: it succeeds exactly on
/// the texts for which `standard_bytes` is defined, and gives those bytes.
#[verifier::external_body]
pub(crate) fn standard_decode(text: &str) -> (decoded: Result<Vec<u8>, base64::DecodeError>)
    ensures
        match decoded {
            Ok(bytes) => standard_bytes(text@) == Some(bytes@),
            Err(_) => standard_bytes(text@) is None,
        },
{
    base64::engine::general_purpose::STANDARD.decode(text)
}

/// `URL_SAFE_NO_PAD.decode` of the `base64` crate. Trusted: it succeeds
/// exactly on the texts for which `url_safe_bytes` is defined, and gives
/// those bytes.
#[verifier::external_body]
pub(crate) fn url_safe_decode(text: &str) -> (decoded: Result<Vec<u8>, base64::DecodeError>)
    ensures
        match decoded {
            Ok(bytes) => url_safe_bytes(text@) == Some(bytes@),
            Err(_) => url_safe_bytes(text@) is None,
        },
{
    base64::engine::general_purpose::URL_SAFE_NO_PAD.decode(text)
}

/// Why base64 text could not be turned back into text.
#[derive(Clone, Copy, Debug, PartialEq, Eq, Structural)]
pub enum Base64Error {
    /// The text is not base64 of the dialect.
    InvalidBase64,
    /// The bytes that the text stands for are not UTF-8.
    InvalidUtf8,
}

/// What to tell the user of each refusal.
pub open spec fn error_text(error: Base64Error) -> Seq<char> {
    match error {
        Base64Error::InvalidBase64 => "the input is not base64 of this format"@,
        Base64Error::InvalidUtf8 => "the decoded bytes are not UTF-8 text"@,
    }
}

impl Base64Error {
    /// What to tell the user.
    pub fn message(self) -> (text: &'static str)
        ensures
            text@ == error_text(self),
    {
        match self {
            Base64Error::InvalidBase64 => "the input is not base64 of this format",
            Base64Error::InvalidUtf8 => "the decoded bytes are not UTF-8 text",
        }
    }
}

/// Whether a character is white space, as Unicode has it.
pub open spec fn is_white_space(c: char) -> bool {
    let n = c as u32;
    (0x09 <= n <= 0x0d) || n == 0x20 || n == 0x85 || n == 0xa0 || n == 0x1680 || (0x2000 <= n
        <= 0x200a) || n == 0x2028 || n == 0x2029 || n == 0x202f || n == 0x205f || n == 0x3000
}

/// `text` without the white space it starts with.
pub open spec fn trimmed_start(text: Seq<char>) -> Seq<char>
    decreases text.len(),
{
    if text.len() > 0 && is_white_space(text.first()) {
        trimmed_start(text.drop_first())
    } else {
        text
    }
}

/// `text` without the white space it ends with.
pub open spec fn trimmed_end(text: Seq<char>) -> Seq<char>
    decreases text.len(),
{
    if text.len() > 0 && is_white_space(text.last()) {
        trimmed_end(text.drop_last())
    } else {
        text
    }
}

/// `text` without the white space at either end.
pub open spec fn trimmed(text: Seq<char>) -> Seq<char> {
    trimmed_end(trimmed_start(text))
}

/// `str::trim` of std. Trusted: the result is the text without the white
/// space at either end.
#[verifier::external_body]
fn trim(text: &str) -> (inner: &str)
    ensures
        inner@ == trimmed(text@),
{
    text.trim()
}

/// The text that the dialect gives for `bytes`.
pub open spec fn encoded(format: Base64Format, bytes: Seq<u8>) -> Seq<char> {
    match format {
        Base64Format::Standard => standard_text(bytes),
        Base64Format::URLSafe => url_safe_text(bytes),
    }
}

/// The bytes that a text of the dialect stands for, if it is well formed.
pub open spec fn decoded(format: Base64Format, text: Seq<char>) -> Option<Seq<u8>> {
    match format {
        Base64Format::Standard => standard_bytes(text),
        Base64Format::URLSafe => url_safe_bytes(text),
    }
}

/// Length of the dialect's encoding of `n` bytes.
pub open spec fn encoded_len(format: Base64Format, n: nat) -> nat {
    match format {
        Base64Format::Standard => padded_len(n),
        Base64Format::URLSafe => unpadded_len(n),
    }
}

/// What decoding `text` as text comes to: the white space around it is
/// dropped, the rest must be base64 of the dialect, and the bytes it stands
/// for must be UTF-8.
pub open spec fn decode_outcome(format: Base64Format, text: Seq<char>) -> Result<
    Seq<char>,
    Base64Error,
> {
    match decoded(format, trimmed(text)) {
        None => Err(Base64Error::InvalidBase64),
        Some(bytes) => if valid_utf8(bytes) {
            Ok(decode_utf8(bytes))
        } else {
            Err(Base64Error::InvalidUtf8)
        },
    }
}

/// Whether the encoding of `n` bytes has a length that the machine can
/// count.
pub fn fits(format: Base64Format, n: usize) -> (ok: bool)
    ensures
        ok == (encoded_len(format, n as nat) <= usize::MAX),
{
    let groups = n / 3;
    let rest = n % 3;
    if groups > usize::MAX / 4 {
        return false;
    }
    let whole = groups * 4;
    let tail: usize = match format {
        Base64Format::Standard => if rest == 0 {
            0
        } else {
            4
        },
        Base64Format::URLSafe => if rest == 0 {
            0
        } else {
            rest + 1
        },
    };
    whole <= usize::MAX - tail
}

/// Encodes `input` in the dialect. The text decodes back to `input`. Its
/// length must be one that the machine can count.
pub fn process_encode(input: &[u8], format: Base64Format) -> (text: String)
    requires
        encoded_len(format, input@.len()) <= usize::MAX,
    ensures
        text@ == encoded(format, input@),
        text@.len() == encoded_len(format, input@.len()),
        decoded(format, text@) == Some(input@),
{
    match format {
        Base64Format::Standard => standard_encode(input),
        Base64Format::URLSafe => url_safe_encode(input),
    }
}

/// What decoding came to: the bytes, or the refusal of a text that is no
/// base64.
pub fn decoded_bytes(decoded: Result<Vec<u8>, base64::DecodeError>) -> (bytes: Result<
    Vec<u8>,
    Base64Error,
>)
    ensures
        match bytes {
            Ok(found) => decoded matches Ok(given) && found == given,
            Err(e) => decoded is Err && e == Base64Error::InvalidBase64,
        },
{
    match decoded {
        Ok(bytes) => Ok(bytes),
        Err(_) => Err(Base64Error::InvalidBase64),
    }
}

/// Decodes text of the dialect to the bytes that it stands for.
pub fn decode_bytes(text: &str, format: Base64Format) -> (bytes: Result<Vec<u8>, Base64Error>)
    ensures
        match bytes {
            Ok(found) => decoded(format, text@) == Some(found@),
            Err(e) => decoded(format, text@) is None && e == Base64Error::InvalidBase64,
        },
{
    match format {
        Base64Format::Standard => decoded_bytes(standard_decode(text)),
        Base64Format::URLSafe => decoded_bytes(url_safe_decode(text)),
    }
}

/// What reading bytes as UTF-8 came to: the text, or the refusal of bytes
/// that are no UTF-8.
pub fn decoded_text(read: Result<String, std::string::FromUtf8Error>) -> (text: Result<
    String,
    Base64Error,
>)
    ensures
        match text {
            Ok(found) => read matches Ok(given) && found == given,
            Err(e) => read is Err && e == Base64Error::InvalidUtf8,
        },
{
    match read {
        Ok(text) => Ok(text),
        Err(_) => Err(Base64Error::InvalidUtf8),
    }
}

/// Decodes `input`, with the white space around it dropped, to the text
/// that it stands for.
pub fn process_decode(input: &str, format: Base64Format) -> (text: Result<String, Base64Error>)
    ensures
        match text {
            Ok(found) => decode_outcome(format, input@) == Ok::<Seq<char>, Base64Error>(found@),
            Err(e) => decode_outcome(format, input@) == Err::<Seq<char>, Base64Error>(e),
        },
{
    let bytes = decode_bytes(trim(input), format)?;
    decoded_text(string_from_utf8(bytes))
}

} // verus!
