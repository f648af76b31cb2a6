//! Text/content signing and verification behind an algorithm-agnostic
//! interface, supporting a symmetric keyed hash (BLAKE3) and an asymmetric
//! signature scheme (Ed25519), together with the command-line option types
//! and the URL-safe signature codec that the tool is built from.

pub mod cli;
pub mod errors;
pub mod process;

pub use cli::{
    parse_base64_format, verify_file, verify_path, Base64DecodeOpts, Base64EncodeOpts,
    Base64Format, Base64SubCommand, CsvOpts, GenPassOpts, HttpServeOpts, HttpSubCommand, Opts,
    OutputFormat, SubCommand, TextKeyGenerateOpts, TextSignFormat, TextSignOpts, TextSubCommand,
    TextVerifyOpts,
};
pub use errors::TextError;
pub use process::{
    decode_signature, encode_signature, process_decode, process_encode, process_gen_pass,
    process_generate, process_text_sign, process_text_verify, Blake3, Ed2519Signer, Ed2519Verify,
    KeyGenerator, KeyLoader, TextSign, TextVerify,
};
