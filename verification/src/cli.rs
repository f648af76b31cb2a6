//! The command-line surface: the option types for each subcommand and the
//! validators that the argument parser applies to file and directory
//! arguments. The collaborator that parses real arguments converts into
//! these types; the library only states and checks their meaning.

pub mod base64;
pub mod csv;
pub mod genpass;
pub mod http;
pub mod text;

pub use base64::{parse_base64_format, Base64DecodeOpts, Base64EncodeOpts, Base64Format,
    Base64SubCommand};
pub use csv::{CsvOpts, OutputFormat};
pub use genpass::GenPassOpts;
pub use http::{HttpServeOpts, HttpSubCommand};
pub use text::{TextKeyGenerateOpts, TextSignFormat, TextSignOpts, TextSubCommand, TextVerifyOpts};

use vstd::prelude::*;

verus! {

/// The whole command line: one subcommand.
#[derive(Debug, Clone)]
pub struct Opts {
    pub cmd: SubCommand,
}

/// The subcommands the tool offers.
#[derive(Debug, Clone)]
pub enum SubCommand {
    Csv(CsvOpts),
    GenPass(GenPassOpts),
    Base64(Base64SubCommand),
    Text(TextSubCommand),
    Http(HttpSubCommand),
}

/// Relies on `str`'s `==` (its `PartialEq`): equality of the two character
/// sequences.
#[verifier::external_body]
pub(crate) fn str_eq(a: &str, b: &str) -> (r: bool)
    ensures
        r == (a@ == b@),
{
    a == b
}

/// Relies on `std::path::Path::exists`. The outcome depends on the
/// filesystem, so nothing is assumed of it.
#[verifier::external_body]
fn path_exists(p: &str) -> bool {
    std::path::Path::new(p).exists()
}

/// Relies on `std::path::Path::exists` and `Path::is_dir`. The outcome
/// depends on the filesystem, so nothing is assumed of it.
#[verifier::external_body]
fn path_is_existing_dir(p: &str) -> bool {
    let q = std::path::Path::new(p);
    q.exists() && q.is_dir()
}

/// Accept an input argument that is either the standard-input sentinel `-`
/// or the name of an existing file; reject anything else.
pub fn verify_file(file: &str) -> (r: Result<String, String>)
    ensures
        file@ == "-"@ ==> (r matches Ok(s) && s@ == file@),
        r matches Ok(s) ==> s@ == file@,
        r matches Err(e) ==> file@ != "-"@ && e@ == "File does not exist"@,
{
    if str_eq(file, "-") || path_exists(file) {
        Ok(file.to_owned())
    } else {
        Err("File does not exist".to_owned())
    }
}

/// Accept a directory argument only when it names an existing directory.
pub fn verify_path(path: &str) -> (r: Result<String, &'static str>)
    ensures
        r matches Ok(s) ==> s@ == path@,
        r matches Err(e) ==> e@ == "path dose not exists or is not a directory"@,
{
    if path_is_existing_dir(path) {
        Ok(path.to_owned())
    } else {
        Err("path dose not exists or is not a directory")
    }
}

} // verus!
