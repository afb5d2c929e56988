//! The arguments of each command, as plain values.

pub mod b64;
pub mod csv;
pub mod genpass;
pub mod http;
pub mod text;

pub use b64::{Base64DecodeOpts, Base64EncodeOpts, Base64Format, Base64SubCommand};
pub use csv::{CsvOpt, OutputFormat};
pub use genpass::GenpassOpt;
pub use http::{HttpServeOpts, HttpSubCommand};
pub use text::{
    TextKeyGenerateOpts, TextSignFormat, TextSignOpts, TextSubCommand, TextVerifyOpts,
    UnsupportedFormat,
};
use vstd::prelude::*;

verus! {

/// What was asked for on the command line.
#[derive(Clone, Debug)]
pub struct Opts {
    pub cmd: Subcommand,
}

/// The commands.
#[derive(Clone, Debug)]
pub enum Subcommand {
    /// Turn a CSV file into JSON or YAML.
    Csv(CsvOpt),
    /// Make a random password.
    Genpass(GenpassOpt),
    /// Encode or decode base64.
    Base64(Base64SubCommand),
    /// Sign text, check a signature, or make keys.
    Text(TextSubCommand),
    /// Serve files.
    Http(HttpSubCommand),
}

} // verus!
