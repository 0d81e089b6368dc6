use vstd::prelude::*;

verus! {

/// An error from one notification delivery, carrying a human-readable
/// description. Delivery failures are logged and dropped: they never feed
/// back into the health pipeline.
#[derive(Debug)]
pub struct AlertError {
    message: String,
}

impl AlertError {
    /// The error's description, as a sequence of characters.
    pub closed spec fn text(&self) -> Seq<char> {
        self.message@
    }

    pub fn new(message: String) -> (r: Self)
        ensures
            r.text() == message@,
    {
        AlertError { message }
    }

    pub fn get(&self) -> (r: &str)
        ensures
            r@ == self.text(),
    {
        self.message.as_str()
    }
}

/// Why one notification delivery failed, kept distinguishable for logging:
/// the call ran out of its time budget, the response carried an unaccepted
/// status, or the call failed in transport before any response.
#[derive(Clone, Copy, Debug, PartialEq, Eq, Structural)]
pub enum DeliveryError {
    TimedOut,
    BadStatus(u16),
    Transport,
}

} // verus!
