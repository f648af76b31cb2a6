//! Options and the algorithm selector for the text signing subcommand.

use crate::cli::str_eq;
use crate::errors::TextError;
use vstd::prelude::*;

verus! {

/// The text subcommand: sign, verify, or generate key material.
#[derive(Debug, Clone)]
pub enum TextSubCommand {
    Verify(TextVerifyOpts),
    Sign(TextSignOpts),
    Generate(TextKeyGenerateOpts),
}

/// Options for key generation: the algorithm and the directory the
/// collaborator writes the key files into.
#[derive(Debug, Clone)]
pub struct TextKeyGenerateOpts {
    pub format: TextSignFormat,
    pub output: String,
}

/// Options for signing: the byte source, the key file, and the algorithm.
#[derive(Debug, Clone)]
pub struct TextSignOpts {
    pub input: String,
    pub key: String,
    pub format: TextSignFormat,
}

/// Options for verification: the byte source, the key file, the encoded
/// signature, and the algorithm.
#[derive(Debug, Clone)]
pub struct TextVerifyOpts {
    pub input: String,
    pub key: String,
    pub sig: String,
    pub format: TextSignFormat,
}

/// Which signing algorithm is active: the symmetric keyed hash or the
/// asymmetric signature scheme.
#[derive(Debug, Clone, Copy, PartialEq, Eq, Structural)]
pub enum TextSignFormat {
    Blake3,
    Ed2519,
}

/// Parse an algorithm name: exactly `blacke3` or `ed2519`.
pub fn parse_format(input: &str) -> (r: Result<TextSignFormat, TextError>)
    ensures
        input@ == "blacke3"@ ==> r == Ok::<_, TextError>(TextSignFormat::Blake3),
        input@ == "ed2519"@ ==> r == Ok::<_, TextError>(TextSignFormat::Ed2519),
        input@ != "blacke3"@ && input@ != "ed2519"@ ==> r == Err::<TextSignFormat, _>(
            TextError::UnsupportedFormatError,
        ),
{
    proof {
        reveal_strlit("blacke3");
        reveal_strlit("ed2519");
        assert("blacke3"@.len() == 7);
        assert("ed2519"@.len() == 6);
    }
    if str_eq(input, "blacke3") {
        Ok(TextSignFormat::Blake3)
    } else if str_eq(input, "ed2519") {
        Ok(TextSignFormat::Ed2519)
    } else {
        Err(TextError::UnsupportedFormatError)
    }
}

impl TextSignFormat {
    /// The name that `parse_format` accepts for this algorithm.
    pub fn as_str(&self) -> (r: &'static str)
        ensures
            *self == TextSignFormat::Blake3 ==> r@ == "blacke3"@,
            *self == TextSignFormat::Ed2519 ==> r@ == "ed2519"@,
    {
        match self {
            TextSignFormat::Blake3 => "blacke3",
            TextSignFormat::Ed2519 => "ed2519",
        }
    }
}

} // verus!
