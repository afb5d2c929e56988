//! Arguments of the `base64` commands, and the token that selects a dialect.

use crate::cli::text::UnsupportedFormat;
use crate::utils::same_text;
use vstd::prelude::*;

verus! {

/// The two things to do with base64.
#[derive(Clone, Debug)]
pub enum Base64SubCommand {
    /// Encode bytes as text.
    Encode(Base64EncodeOpts),
    /// Decode text to what it stands for.
    Decode(Base64DecodeOpts),
}

/// Arguments of `base64 encode`.
#[derive(Clone, Debug)]
pub struct Base64EncodeOpts {
    /// Where the bytes come from: a file's name, or `-` for standard input.
    pub input: String,
    pub format: Base64Format,
}

/// Arguments of `base64 decode`.
#[derive(Clone, Debug)]
pub struct Base64DecodeOpts {
    /// Where the text comes from: a file's name, or `-` for standard input.
    pub input: String,
    pub format: Base64Format,
}

/// A dialect of base64.
#[derive(Clone, Copy, Debug, PartialEq, Eq, Structural)]
pub enum Base64Format {
    /// The standard alphabet, with padding.
    Standard,
    /// The URL-safe alphabet, without padding.
    URLSafe,
}

impl Default for Base64EncodeOpts {
    /// Standard input, in the standard dialect.
    fn default() -> (opts: Self)
        ensures
            opts.input@ == "-"@,
            opts.format == Base64Format::Standard,
    {
        Base64EncodeOpts { input: "-".to_owned(), format: Base64Format::Standard }
    }
}

impl Default for Base64DecodeOpts {
    /// Standard input, in the standard dialect.
    fn default() -> (opts: Self)
        ensures
            opts.input@ == "-"@,
            opts.format == Base64Format::Standard,
    {
        Base64DecodeOpts { input: "-".to_owned(), format: Base64Format::Standard }
    }
}

/// The token of each dialect.
pub open spec fn format_token(format: Base64Format) -> Seq<char> {
    match format {
        Base64Format::Standard => "standard"@,
        Base64Format::URLSafe => "urlsafe"@,
    }
}

/// The dialect that a token names, if any. Tokens are case-sensitive.
pub open spec fn format_of_token(token: Seq<char>) -> Option<Base64Format> {
    if token == "standard"@ {
        Some(Base64Format::Standard)
    } else if token == "urlsafe"@ {
        Some(Base64Format::URLSafe)
    } else {
        None
    }
}

impl Base64Format {
    /// The token that selects this dialect on the command line.
    pub fn name(self) -> (token: &'static str)
        ensures
            token@ == format_token(self),
    {
        self.into()
    }
}

impl std::str::FromStr for Base64Format {
    type Err = UnsupportedFormat;

    fn from_str(s: &str) -> (parsed: Result<Self, Self::Err>)
        ensures
            match parsed {
                Ok(dialect) => format_of_token(s@) == Some(dialect),
                Err(e) => format_of_token(s@) is None && e.token@ == s@,
            },
    {
        parse_format(s)
    }
}

impl From<Base64Format> for &'static str {
    fn from(format: Base64Format) -> (token: Self) {
        match format {
            Base64Format::Standard => "standard",
            Base64Format::URLSafe => "urlsafe",
        }
    }
}

impl vstd::std_specs::convert::FromSpecImpl<Base64Format> for &'static str {
    open spec fn obeys_from_spec() -> bool {
        true
    }

    open spec fn from_spec(format: Base64Format) -> Self {
        match format {
            Base64Format::Standard => "standard",
            Base64Format::URLSafe => "urlsafe",
        }
    }
}

/// Reads a dialect token. An unknown token is handed back in the error.
pub fn parse_format(format: &str) -> (parsed: Result<Base64Format, UnsupportedFormat>)
    ensures
        match parsed {
            Ok(dialect) => format_of_token(format@) == Some(dialect),
            Err(e) => format_of_token(format@) is None && e.token@ == format@,
        },
{
    if same_text(format, "standard") {
        Ok(Base64Format::Standard)
    } else if same_text(format, "urlsafe") {
        Ok(Base64Format::URLSafe)
    } else {
        Err(UnsupportedFormat { token: format.to_owned() })
    }
}

/// Every dialect is read back from its own token.
pub proof fn lemma_token_round_trip(format: Base64Format)
    ensures
        format_of_token(format_token(format)) == Some(format),
{
    reveal_strlit("standard");
    reveal_strlit("urlsafe");
    if format == Base64Format::URLSafe {
        assert("urlsafe"@.len() != "standard"@.len());
    }
}

} // verus!
