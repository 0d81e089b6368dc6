use vstd::prelude::*;

verus! {

/// An error from one probe attempt, carrying a human-readable description.
/// Probe errors are expected and recoverable: they drive the health state
/// machine and are never fatal to the process.
#[derive(Debug)]
pub struct CheckError {
    message: String,
}

impl CheckError {
    /// The error's description, as a sequence of characters.
    pub closed spec fn text(&self) -> Seq<char> {
        self.message@
    }

    pub fn new(message: String) -> (r: Self)
        ensures
            r.text() == message@,
    {
        CheckError { message }
    }

    pub fn get(&self) -> (r: &str)
        ensures
            r@ == self.text(),
    {
        self.message.as_str()
    }
}

} // verus!
