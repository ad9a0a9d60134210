//! Errors of the server's HTTP actions.

use vstd::prelude::*;

verus! {

/// An error that an action of the server answers with.
#[derive(Debug, Clone, Copy, PartialEq, Eq, Structural)]
pub enum ActionError {
    BadRequest,
    InternalServerError,
}

impl ActionError {
    /// The HTTP status code that the error is answered with.
    pub open spec fn spec_status_code(self) -> u16 {
        match self {
            ActionError::BadRequest => 400,
            ActionError::InternalServerError => 500,
        }
    }

    /// The HTTP status code of the response: 400 for a bad request, 500 for
    /// an internal server error.
    pub fn status_code(&self) -> (code: u16)
        ensures
            code == self.spec_status_code(),
    {
        match self {
            ActionError::BadRequest => 400,
            ActionError::InternalServerError => 500,
        }
    }

    /// The text placed under `"error"` in the JSON body of the response:
    /// empty for both errors.
    pub fn error_message(&self) -> (message: &'static str)
        ensures
            message@ == Seq::<char>::empty(),
    {
        let message = "";
        proof {
            reveal_strlit("");
        }
        message
    }

    /// The error that a failure to obtain a database connection becomes.
    pub fn from_pool_error() -> (e: ActionError)
        ensures
            e == ActionError::InternalServerError,
    {
        ActionError::InternalServerError
    }
}

} // verus!
