//! The error taxonomy of the library. Every fallible operation returns one
//! of these kinds; none is retried, and a well-formed-but-non-matching
//! verification is not an error.

use vstd::prelude::*;

verus! {

/// The kinds of failure a core operation can report.
#[derive(Debug, Clone, Copy, PartialEq, Eq, Structural)]
pub enum TextError {
    /// An underlying file or stream read or write failed.
    IOError,
    /// Loaded key material is shorter than the format requires.
    KeyLengthError,
    /// A decoded signature does not have the format's fixed output length.
    SignatureLengthError,
    /// Signature text failed to decode under the expected alphabet.
    EncodingError,
    /// Key bytes cannot be interpreted as a valid key for the algorithm.
    CryptoConstructionError,
    /// An unrecognized format identifier was supplied at the boundary.
    UnsupportedFormatError,
}

impl TextError {
    /// A short human-readable description of the error kind.
    pub fn message(&self) -> (r: &'static str)
        ensures
            r@ == self.message_spec(),
    {
        match self {
            TextError::IOError => "io error",
            TextError::KeyLengthError => "key material has the wrong length",
            TextError::SignatureLengthError => "signature has the wrong length",
            TextError::EncodingError => "signature text is not valid base64",
            TextError::CryptoConstructionError => "key bytes do not form a valid key",
            TextError::UnsupportedFormatError => "unsupported format",
        }
    }

    /// What `message` returns for each kind.
    pub open spec fn message_spec(&self) -> Seq<char> {
        match self {
            TextError::IOError => "io error"@,
            TextError::KeyLengthError => "key material has the wrong length"@,
            TextError::SignatureLengthError => "signature has the wrong length"@,
            TextError::EncodingError => "signature text is not valid base64"@,
            TextError::CryptoConstructionError => "key bytes do not form a valid key"@,
            TextError::UnsupportedFormatError => "unsupported format"@,
        }
    }
}

} // verus!
