//! Arguments of the `csv` command, and the token that selects what the
//! table is turned into.

use crate::cli::text::UnsupportedFormat;
use crate::utils::same_text;
use vstd::prelude::*;
use vstd::string::StringExecFns;

verus! {

/// Arguments of `csv`.
#[derive(Clone, Debug)]
pub struct CsvOpt {
    /// The file that holds the table.
    pub input: String,
    /// The file to write; where none is named, see `output_name`.
    pub output: Option<String>,
    pub format: OutputFormat,
    /// What separates two fields of a line.
    pub delimiter: char,
    /// Whether the first line names the columns.
    pub header: bool,
}

/// What a table is turned into.
#[derive(Clone, Copy, Debug, PartialEq, Eq, Structural)]
pub enum OutputFormat {
    /// Pretty-printed JSON.
    Json,
    /// YAML.
    Yaml,
}

/// The token of each output format. It is also the file extension.
pub open spec fn format_token(format: OutputFormat) -> Seq<char> {
    match format {
        OutputFormat::Json => "json"@,
        OutputFormat::Yaml => "yaml"@,
    }
}

/// The output format that a token names, if any. Tokens are case-sensitive.
pub open spec fn format_of_token(token: Seq<char>) -> Option<OutputFormat> {
    if token == "json"@ {
        Some(OutputFormat::Json)
    } else if token == "yaml"@ {
        Some(OutputFormat::Yaml)
    } else {
        None
    }
}

impl OutputFormat {
    /// The token that selects this output format on the command line.
    pub fn name(self) -> (token: &'static str)
        ensures
            token@ == format_token(self),
    {
        self.into()
    }
}

impl std::str::FromStr for OutputFormat {
    type Err = UnsupportedFormat;

    fn from_str(s: &str) -> (parsed: Result<Self, Self::Err>)
        ensures
            match parsed {
                Ok(output) => format_of_token(s@) == Some(output),
                Err(e) => format_of_token(s@) is None && e.token@ == s@,
            },
    {
        parse_format(s)
    }
}

impl From<OutputFormat> for &'static str {
    fn from(format: OutputFormat) -> (token: Self) {
        match format {
            OutputFormat::Json => "json",
            OutputFormat::Yaml => "yaml",
        }
    }
}

impl vstd::std_specs::convert::FromSpecImpl<OutputFormat> for &'static str {
    open spec fn obeys_from_spec() -> bool {
        true
    }

    open spec fn from_spec(format: OutputFormat) -> Self {
        match format {
            OutputFormat::Json => "json",
            OutputFormat::Yaml => "yaml",
        }
    }
}

/// Reads an output format token. An unknown token is handed back in the
/// error.
pub fn parse_format(format: &str) -> (parsed: Result<OutputFormat, UnsupportedFormat>)
    ensures
        match parsed {
            Ok(output) => format_of_token(format@) == Some(output),
            Err(e) => format_of_token(format@) is None && e.token@ == format@,
        },
{
    if same_text(format, "json") {
        Ok(OutputFormat::Json)
    } else if same_text(format, "yaml") {
        Ok(OutputFormat::Yaml)
    } else {
        Err(UnsupportedFormat { token: format.to_owned() })
    }
}

/// Every output format is read back from its own token.
pub proof fn lemma_token_round_trip(format: OutputFormat)
    ensures
        format_of_token(format_token(format)) == Some(format),
{
    reveal_strlit("json");
    reveal_strlit("yaml");
    if format == OutputFormat::Yaml {
        assert("yaml"@[0] != "json"@[0]);
    }
}

impl CsvOpt {
    /// The file to write: the one that was named, else `output.` and the
    /// format's token.
    pub fn output_name(&self) -> (name: String)
        ensures
            name@ == match self.output {
                Some(given) => given@,
                None => "output."@ + format_token(self.format),
            },
    {
        match &self.output {
            Some(given) => given.clone(),
            None => String::from_str("output.").concat(self.format.name()),
        }
    }
}

} // verus!
