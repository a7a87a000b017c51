//! The choice of report format.
use vstd::prelude::*;
use crate::chars_of;
use crate::text::eq_str;

verus! {

#[derive(Debug, Clone, Copy, PartialEq, Eq, Structural)]
pub enum OutputFormat {
    Human,
    Plain,
    Json,
}

/// The format named in a configuration file: `json` and `plain` by name,
/// anything else the human-readable report.
pub open spec fn format_named(name: Seq<char>) -> OutputFormat {
    if name == "json"@ {
        OutputFormat::Json
    } else if name == "plain"@ {
        OutputFormat::Plain
    } else {
        OutputFormat::Human
    }
}

/// The format asked for on the command line if any, else the one named in the
/// configuration.
pub fn resolve_format(cli_format: Option<OutputFormat>, config_format: &str) -> (r: OutputFormat)
    ensures
        r == match cli_format {
            Some(f) => f,
            None => format_named(config_format@),
        },
{
    match cli_format {
        Some(f) => f,
        None => {
            let name = chars_of(config_format);
            if eq_str(name.as_slice(), "json") {
                OutputFormat::Json
            } else if eq_str(name.as_slice(), "plain") {
                OutputFormat::Plain
            } else {
                OutputFormat::Human
            }
        },
    }
}

} // verus!
