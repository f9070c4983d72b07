pub mod b64;
pub mod codec;
pub mod http_serve;
pub mod primitives;
pub mod random;
pub mod text;

pub use b64::{process_decode, process_encode};
pub use http_serve::{file_response, FileProbe};
pub use text::{
    process_text_generate, process_text_sign, process_text_verify, Blake3, Ed25519Signer,
    Ed25519Verifier, KeyGenerator, KeyLoader, TextSign, TextVerify,
};
