//! The options the external driver collects before it starts a search.

use vstd::prelude::*;

verus! {

/// Command-line options. The driver that parses arguments lives outside the
/// library; it hands the collected values over in this plain form.
pub struct Opts {
    pub help: bool,
    pub pattern: String,
    pub fn_name: String,
    pub fn_parameters: Option<String>,
    pub num_threads: Option<usize>,
}

} // verus!
