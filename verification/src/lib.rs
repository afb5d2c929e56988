//! Verified core of a small command-line toolbox: signing and checking text
//! with a keyed hash or an Ed25519 signature, a base64 codec, password
//! generation, and the argument types that a front end fills in.

pub mod cli;
pub mod process;
pub mod utils;

pub use cli::{
    Base64DecodeOpts, Base64EncodeOpts, Base64Format, Base64SubCommand, CsvOpt, GenpassOpt,
    HttpServeOpts, HttpSubCommand, Opts, OutputFormat, Subcommand, TextKeyGenerateOpts,
    TextSignFormat, TextSignOpts, TextSubCommand, TextVerifyOpts, UnsupportedFormat,
};
pub use process::{
    decode_bytes, file_handler, password_bytes, process_csv, process_decode, process_encode,
    process_gen_pass, process_text_keygen, process_text_keygen_with, process_text_sign,
    process_text_verify, Base64Error, Blake3, CsvError, Ed22519Signer, Ed22519Verifier, Found,
    RandomSource, Reply, SystemRandom, TextError,
};
pub use utils::{same_bytes, same_text, verify_file, verify_input_file, verify_path};
