use vstd::prelude::*;

verus! {

/// The command line: a file to open, or to print with `render`.
pub struct Cli {
    pub file: Option<String>,
    pub render: bool,
}

} // verus!
