//! Options and the output selector for the CSV conversion subcommand.

use crate::cli::str_eq;
use crate::errors::TextError;
use vstd::prelude::*;

verus! {

/// Which format the converted table is written in.
#[derive(Debug, Clone, Copy, PartialEq, Eq, Structural)]
pub enum OutputFormat {
    Json,
    Yaml,
}

/// Options for the CSV conversion subcommand.
#[derive(Debug, Clone)]
pub struct CsvOpts {
    pub input: String,
    pub output: Option<String>,
    pub format: OutputFormat,
    pub delimiter: char,
    pub header: bool,
}

/// The lower-case form of a character sequence; a function of the
/// characters alone.
pub uninterp spec fn lower_of(s: Seq<char>) -> Seq<char>;

/// Relies on `str::to_lowercase`: the result depends on the characters
/// alone.
#[verifier::external_body]
fn to_lowercase(s: &str) -> (r: String)
    ensures
        r@ == lower_of(s@),
{
    s.to_lowercase()
}

/// Parse an output format name, ignoring case: `json` or `yaml`.
pub fn parse_format(format: &str) -> (r: Result<OutputFormat, TextError>)
    ensures
        lower_of(format@) == "json"@ ==> r == Ok::<_, TextError>(OutputFormat::Json),
        lower_of(format@) == "yaml"@ ==> r == Ok::<_, TextError>(OutputFormat::Yaml),
        lower_of(format@) != "json"@ && lower_of(format@) != "yaml"@ ==> r == Err::<
            OutputFormat,
            _,
        >(TextError::UnsupportedFormatError),
{
    proof {
        reveal_strlit("json");
        reveal_strlit("yaml");
        assert("json"@[0] == 'j' && "yaml"@[0] == 'y');
    }
    let lowered = to_lowercase(format);
    if str_eq(lowered.as_str(), "json") {
        Ok(OutputFormat::Json)
    } else if str_eq(lowered.as_str(), "yaml") {
        Ok(OutputFormat::Yaml)
    } else {
        Err(TextError::UnsupportedFormatError)
    }
}

impl OutputFormat {
    /// The name that `parse_format` accepts for this output format.
    pub fn as_str(&self) -> (r: &'static str)
        ensures
            *self == OutputFormat::Json ==> r@ == "json"@,
            *self == OutputFormat::Yaml ==> r@ == "yaml"@,
    {
        match self {
            OutputFormat::Json => "json",
            OutputFormat::Yaml => "yaml",
        }
    }
}

} // verus!
