//! Options for the random password subcommand.

use vstd::prelude::*;

verus! {

/// Options for password generation: the length and the character classes
/// the password draws from.
#[derive(Debug, Clone, Copy)]
pub struct GenPassOpts {
    pub length: u8,
    pub uppercase: bool,
    pub lowercase: bool,
    pub number: bool,
    pub symbol: bool,
}

} // verus!
