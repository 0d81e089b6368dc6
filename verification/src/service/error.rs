use vstd::prelude::*;

verus! {

/// An error raised while wiring a service into the scheduler, for example a
/// malformed cron expression. Fatal to that one service's monitoring only.
#[derive(Debug)]
pub struct ServiceError {
    pub message: String,
}

impl ServiceError {
    pub fn new(msg: String) -> (r: Self)
        ensures
            r.message == msg,
    {
        ServiceError { message: msg }
    }
}

} // verus!
