//! The operations behind the commands.

pub mod b64;
pub mod csv_convert;
pub mod gen_pass;
pub mod http_serve;
pub mod random;
pub mod text;

pub use b64::{decode_bytes, process_decode, process_encode, Base64Error};
pub use csv_convert::{process_csv, CsvError};
pub use gen_pass::{password_bytes, process_gen_pass};
pub use http_serve::{file_handler, Found, Reply};
pub use random::{RandomSource, SystemRandom};
pub use text::{
    process_text_keygen, process_text_keygen_with, process_text_sign, process_text_verify, Blake3,
    Ed22519Signer, Ed22519Verifier, TextError,
};
