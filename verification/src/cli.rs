//! What the interactive command line feeds the core: the parsed argument
//! shape and the classification of typed commands. Reading arguments and
//! stdin, and printing, belong to the surrounding runtime.

pub mod arg;
pub mod input;
pub mod load;

pub use input::InputType;

use vstd::prelude::*;

verus! {

/// The daemon's command-line arguments: the configuration file to load and
/// whether to only list its contents.
#[derive(Debug, Clone)]
pub struct Args {
    pub cfg_path: String,
    pub list: bool,
}

} // verus!
