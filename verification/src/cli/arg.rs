use vstd::prelude::*;

verus! {

/// The daemon's command-line arguments: the configuration file to load,
/// whether to take interactive commands on stdin, and whether to only list
/// the configuration's contents.
#[derive(Debug, Clone)]
pub struct Args {
    pub cfg_path: String,
    pub input: bool,
    pub list: bool,
}

} // verus!
