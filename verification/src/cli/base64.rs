//! Options and the alphabet selector for the base64 subcommand.

use crate::cli::str_eq;
use crate::errors::TextError;
use vstd::prelude::*;

verus! {

/// The base64 subcommand: encode or decode a byte stream.
#[derive(Debug, Clone)]
pub enum Base64SubCommand {
    Encode(Base64EncodeOpts),
    Decode(Base64DecodeOpts),
}

/// Options for encoding: the input source and the alphabet.
#[derive(Debug, Clone)]
pub struct Base64EncodeOpts {
    pub input: String,
    pub format: Base64Format,
}

/// Options for decoding: the input source and the alphabet.
#[derive(Debug, Clone)]
pub struct Base64DecodeOpts {
    pub input: String,
    pub format: Base64Format,
}

/// Which base64 alphabet the subcommand uses.
#[derive(Debug, Clone, Copy, PartialEq, Eq, Structural)]
pub enum Base64Format {
    Standard,
    UrlSafe,
}

/// Parse an alphabet name: exactly `standard` or `urlsafe`.
pub fn parse_base64_format(format: &str) -> (r: Result<Base64Format, TextError>)
    ensures
        format@ == "standard"@ ==> r == Ok::<_, TextError>(Base64Format::Standard),
        format@ == "urlsafe"@ ==> r == Ok::<_, TextError>(Base64Format::UrlSafe),
        format@ != "standard"@ && format@ != "urlsafe"@ ==> r == Err::<Base64Format, _>(
            TextError::UnsupportedFormatError,
        ),
{
    proof {
        reveal_strlit("standard");
        reveal_strlit("urlsafe");
        assert("standard"@.len() == 8);
        assert("urlsafe"@.len() == 7);
    }
    if str_eq(format, "standard") {
        Ok(Base64Format::Standard)
    } else if str_eq(format, "urlsafe") {
        Ok(Base64Format::UrlSafe)
    } else {
        Err(TextError::UnsupportedFormatError)
    }
}

impl Base64Format {
    /// The name that `parse_base64_format` accepts for this alphabet.
    pub fn as_str(&self) -> (r: &'static str)
        ensures
            *self == Base64Format::Standard ==> r@ == "standard"@,
            *self == Base64Format::UrlSafe ==> r@ == "urlsafe"@,
    {
        match self {
            Base64Format::Standard => "standard",
            Base64Format::UrlSafe => "urlsafe",
        }
    }
}

} // verus!
