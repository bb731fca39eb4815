//! How the reports are to be rendered.
use vstd::prelude::*;

verus! {

/// The format to print the reports in.
#[derive(Clone, Copy, Debug)]
pub struct OutputFormat {
    /// Whether output is coloured. On by default.
    pub enable_color: bool,
}

impl Default for OutputFormat {
    fn default() -> (r: OutputFormat)
        ensures
            r.enable_color,
    {
        OutputFormat { enable_color: true }
    }
}

} // verus!
