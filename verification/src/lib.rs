//! Text signing and verification behind one interface, for a keyed hash and
//! for an asymmetric signature scheme, with key loading, key generation and
//! base64 transcoding. Every function works on bytes and text that the caller
//! has already read; nothing here touches files or the terminal.

pub mod cli;
pub mod error;
pub mod opts;
pub mod process;

pub use cli::{verify_file, verify_path, Base64Format, TextSignFormat};
pub use error::TextError;
pub use process::{
    file_response, process_decode, process_encode, process_text_generate, process_text_sign,
    process_text_verify, Blake3, Ed25519Signer, Ed25519Verifier, FileProbe, KeyGenerator,
    KeyLoader, TextSign, TextVerify,
};
