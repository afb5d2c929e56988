//! Helpers on text and bytes, and the checks on path arguments.

use vstd::prelude::*;
use vstd::utf8::*;

verus! {

/// Whether two byte slices hold the same bytes.
pub fn same_bytes(a: &[u8], b: &[u8]) -> (same: bool)
    ensures
        same == (a@ == b@),
{
    if a.len() != b.len() {
        return false;
    }
    let mut i: usize = 0;
    while i < a.len()
        invariant
            i <= a.len(),
            a.len() == b.len(),
            forall|j: int| 0 <= j < i ==> a@[j] == b@[j],
        decreases a.len() - i,
    {
        if a[i] != b[i] {
            return false;
        }
        i += 1;
    }
    proof {
        assert(a@ =~= b@);
    }
    true
}

/// Whether two strings hold the same characters.
pub fn same_text(a: &str, b: &str) -> (same: bool)
    ensures
        same == (a@ == b@),
{
    let same = same_bytes(a.as_bytes(), b.as_bytes());
    proof {
        encode_utf8_decode_utf8(a@);
        encode_utf8_decode_utf8(b@);
    }
    same
}

/// `std::string::FromUtf8Error`, the refusal of `String::from_utf8`. Nothing
/// is known of what is in it.
#[verifier::external_type_specification]
#[verifier::external_body]
pub struct ExFromUtf8Error(std::string::FromUtf8Error);

/// `String::from_utf8` of std. Trusted: it succeeds exactly on valid UTF-8
/// and gives the characters that the bytes encode.
#[verifier::external_body]
pub(crate) fn string_from_utf8(bytes: Vec<u8>) -> (text: Result<String, std::string::FromUtf8Error>)
    ensures
        match text {
            Ok(s) => valid_utf8(bytes@) && s@ == decode_utf8(bytes@),
            Err(_) => !valid_utf8(bytes@),
        },
{
    String::from_utf8(bytes)
}

/// Bytes below 128 read as the characters of the same number.
pub open spec fn ascii_text(bytes: Seq<u8>) -> Seq<char> {
    Seq::new(bytes.len(), |i: int| bytes[i] as char)
}

/// Whether every byte is below 128.
pub open spec fn is_ascii_bytes(bytes: Seq<u8>) -> bool {
    forall|i: int| 0 <= i < bytes.len() ==> #[trigger] bytes[i] < 128
}

/// ASCII bytes are valid UTF-8 and encode the characters of the same
/// numbers.
pub proof fn lemma_ascii_is_utf8(bytes: Seq<u8>)
    requires
        is_ascii_bytes(bytes),
    ensures
        valid_utf8(bytes),
        decode_utf8(bytes) == ascii_text(bytes),
        encode_utf8(ascii_text(bytes)) == bytes,
{
    let chars = ascii_text(bytes);
    assert(is_ascii_chars(chars)) by {
        assert forall|i: int| 0 <= i < chars.len() implies '\0' <= #[trigger] chars[i]
            <= '\u{7f}' by {
            assert(bytes[i] < 128);
        }
    }
    is_ascii_chars_encode_utf8(chars);
    assert(encode_utf8(chars) =~= bytes) by {
        assert forall|i: int| 0 <= i < bytes.len() implies encode_utf8(chars)[i] == bytes[i] by {
            assert(chars[i] as u8 == encode_utf8(chars)[i]);
            assert(bytes[i] < 128);
        }
    }
    encode_utf8_valid_utf8(chars);
    encode_utf8_decode_utf8(chars);
}

/// What is said of an input that is neither `-` nor a file that exists.
pub const NO_FILE: &'static str = "File dose not exist";

/// What is said of a path that is no directory.
pub const NO_PATH: &'static str = "Path dose not exist";

/// Whether `filename` can be read from: it is `-`, which stands for
/// standard input, or names something that exists. `exists` says whether a
/// look at the file system found it.
pub open spec fn readable(filename: Seq<char>, exists: bool) -> bool {
    filename == "-"@ || exists
}

/// Accepts an input argument: `-`, or a name for which `exists` says that
/// something of that name was found.
pub fn verify_file(filename: &str, exists: bool) -> (checked: Result<String, &'static str>)
    ensures
        match checked {
            Ok(name) => readable(filename@, exists) && name@ == filename@,
            Err(why) => !readable(filename@, exists) && why@ == NO_FILE@,
        },
{
    if same_text(filename, "-") || exists {
        Ok(filename.to_owned())
    } else {
        Err(NO_FILE)
    }
}

/// Accepts the name of a file for which `exists` says that it was found.
/// Unlike `verify_file` it gives `-` no special meaning.
pub fn verify_input_file(filename: &str, exists: bool) -> (checked: Result<String, &'static str>)
    ensures
        match checked {
            Ok(name) => exists && name@ == filename@,
            Err(why) => !exists && why@ == NO_FILE@,
        },
{
    if exists {
        Ok(filename.to_owned())
    } else {
        Err(NO_FILE)
    }
}

/// Accepts a directory argument: a path for which `is_dir` says that a
/// directory of that name was found.
pub fn verify_path(path: &str, is_dir: bool) -> (checked: Result<String, &'static str>)
    ensures
        match checked {
            Ok(dir) => is_dir && dir@ == path@,
            Err(why) => !is_dir && why@ == NO_PATH@,
        },
{
    if is_dir {
        Ok(path.to_owned())
    } else {
        Err(NO_PATH)
    }
}

} // verus!
