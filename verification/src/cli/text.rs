//! Arguments of the `text` commands, and the token that selects a scheme.

use crate::utils::same_text;
use vstd::prelude::*;
use vstd::string::StringExecFns;

verus! {

/// The scheme that a signature is made and checked with. The caller always
/// names it; it is never guessed from a key or a signature.
#[derive(Clone, Copy, Debug, PartialEq, Eq, Structural)]
pub enum TextSignFormat {
    /// Keyed BLAKE3 hash under a shared 32-byte secret.
    Blake3,
    /// Ed25519 signature: a secret key signs, the paired public key checks.
    Ed22519,
}

/// The three things to do with signatures.
#[derive(Clone, Debug)]
pub enum TextSubCommand {
    /// Sign content with a secret or shared key.
    Sign(TextSignOpts),
    /// Check a signature.
    Verify(TextVerifyOpts),
    /// Make new keys.
    Generate(TextKeyGenerateOpts),
}

/// Arguments of `text sign`.
#[derive(Clone, Debug)]
pub struct TextSignOpts {
    /// Where the content comes from: a file's name, or `-` for standard
    /// input.
    pub input: String,
    /// The file that holds the key.
    pub key: String,
    pub format: TextSignFormat,
}

/// Arguments of `text verify`.
#[derive(Clone, Debug)]
pub struct TextVerifyOpts {
    /// Where the content comes from: a file's name, or `-` for standard
    /// input.
    pub input: String,
    /// The signature, as URL-safe base64 text without padding.
    pub sig: String,
    pub format: TextSignFormat,
    /// The file that holds the key.
    pub key: String,
}

/// Arguments of `text generate`.
#[derive(Clone, Debug)]
pub struct TextKeyGenerateOpts {
    pub format: TextSignFormat,
    /// The directory that the key files are written to.
    pub output: String,
}

/// A format token that names no known format.
#[derive(Clone, Debug)]
pub struct UnsupportedFormat {
    pub token: String,
}

impl UnsupportedFormat {
    /// What to tell the user.
    pub fn message(&self) -> (text: String)
        ensures
            text@ == "Unsupported format: "@ + self.token@,
    {
        String::from_str("Unsupported format: ").concat(self.token.as_str())
    }
}

/// The token of each scheme.
pub open spec fn format_token(format: TextSignFormat) -> Seq<char> {
    match format {
        TextSignFormat::Blake3 => "blake3"@,
        TextSignFormat::Ed22519 => "ed22519"@,
    }
}

/// The scheme that a token names, if any. Tokens are case-sensitive.
pub open spec fn format_of_token(token: Seq<char>) -> Option<TextSignFormat> {
    if token == "blake3"@ {
        Some(TextSignFormat::Blake3)
    } else if token == "ed22519"@ {
        Some(TextSignFormat::Ed22519)
    } else {
        None
    }
}

impl TextSignFormat {
    /// The token that selects this scheme on the command line.
    pub fn name(self) -> (token: &'static str)
        ensures
            token@ == format_token(self),
    {
        self.into()
    }
}

impl std::str::FromStr for TextSignFormat {
    type Err = UnsupportedFormat;

    fn from_str(s: &str) -> (parsed: Result<Self, Self::Err>)
        ensures
            match parsed {
                Ok(scheme) => format_of_token(s@) == Some(scheme),
                Err(e) => format_of_token(s@) is None && e.token@ == s@,
            },
    {
        parse_format(s)
    }
}

impl From<TextSignFormat> for &'static str {
    fn from(format: TextSignFormat) -> (token: Self) {
        match format {
            TextSignFormat::Blake3 => "blake3",
            TextSignFormat::Ed22519 => "ed22519",
        }
    }
}

impl vstd::std_specs::convert::FromSpecImpl<TextSignFormat> for &'static str {
    open spec fn obeys_from_spec() -> bool {
        true
    }

    open spec fn from_spec(format: TextSignFormat) -> Self {
        match format {
            TextSignFormat::Blake3 => "blake3",
            TextSignFormat::Ed22519 => "ed22519",
        }
    }
}

/// Reads a scheme token. An unknown token is handed back in the error.
pub fn parse_format(format: &str) -> (parsed: Result<TextSignFormat, UnsupportedFormat>)
    ensures
        match parsed {
            Ok(scheme) => format_of_token(format@) == Some(scheme),
            Err(e) => format_of_token(format@) is None && e.token@ == format@,
        },
{
    if same_text(format, "blake3") {
        Ok(TextSignFormat::Blake3)
    } else if same_text(format, "ed22519") {
        Ok(TextSignFormat::Ed22519)
    } else {
        Err(UnsupportedFormat { token: format.to_owned() })
    }
}

/// Every scheme is read back from its own token.
pub proof fn lemma_token_round_trip(format: TextSignFormat)
    ensures
        format_of_token(format_token(format)) == Some(format),
{
    reveal_strlit("blake3");
    reveal_strlit("ed22519");
    if format == TextSignFormat::Ed22519 {
        assert("ed22519"@.len() != "blake3"@.len());
    }
}

} // verus!
