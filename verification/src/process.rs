//! The operations behind each subcommand: the signature codec, the
//! password-style key material generator, and the signing core.

pub mod b64;
pub mod gen_pass;
pub mod text;

pub use b64::{decode_signature, encode_signature, process_decode, process_encode};
pub use gen_pass::process_gen_pass;
pub use text::{
    process_generate, process_text_sign, process_text_verify, Blake3, Ed2519Signer, Ed2519Verify,
    KeyGenerator, KeyLoader, TextSign, TextVerify,
};
