use vstd::prelude::*;

verus! {

/// The arguments of the configuration-listing entry point.
#[derive(Debug, Clone)]
pub struct Args {
    pub cfg_path: String,
    pub list: bool,
}

} // verus!
