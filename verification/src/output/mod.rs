//! Output: the format the user asked for, terminal styling, and the
//! plain-text renderers.

pub mod plain_fmt;
pub mod style;
pub mod tree_fmt;

use vstd::prelude::*;

verus! {

/// The output format of a command.
#[derive(Debug, Clone, Copy, PartialEq, Eq)]
pub enum OutputFormat {
    Plain,
    Tree,
    Json,
}

/// The effective output format: `--json` overrides `--format`.
pub fn resolve_output_format(json: bool, format: OutputFormat) -> (r: OutputFormat)
    ensures
        r == if json {
            OutputFormat::Json
        } else {
            format
        },
{
    if json {
        OutputFormat::Json
    } else {
        format
    }
}

} // verus!
