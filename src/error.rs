use vstd::prelude::*;

verus! {

/// The kinds of failure that the store reports to its callers.
#[derive(Clone, Copy, Debug, PartialEq, Eq, Structural)]
pub enum ErrorResponseType {
    /// A storage engine could not be reached.
    Connection,
    /// A storage engine reported a failure that is not classified further.
    Database,
    /// The stored data broke one of its own invariants.
    Internal,
    /// The request conflicts with data already stored (a uniqueness violation).
    NotAccepted,
    /// No stored record matched the lookup.
    NotFound,
}

/// A typed failure: its kind and a message for the caller.
#[derive(Clone, Debug)]
pub struct ErrorResponse {
    pub error: ErrorResponseType,
    pub message: String,
}

impl ErrorResponse {
    pub fn new(error: ErrorResponseType, message: &str) -> (r: ErrorResponse)
        ensures
            r.error == error,
            r.message@ == message@,
    {
        ErrorResponse { error, message: message.to_owned() }
    }
}

impl PartialEq for ErrorResponse {
    fn eq(&self, other: &ErrorResponse) -> (r: bool) {
        self.error == other.error && self.message == other.message
    }
}

impl vstd::std_specs::cmp::PartialEqSpecImpl for ErrorResponse {
    open spec fn obeys_eq_spec() -> bool {
        true
    }

    open spec fn eq_spec(&self, other: &ErrorResponse) -> bool {
        self.error == other.error && self.message@ == other.message@
    }
}

} // verus!
