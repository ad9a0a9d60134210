//! The rows of the server's database.

use vstd::prelude::*;
use crate::messages::RegisterRequest;

verus! {

/// A registered user: the e-mail address, the SRP password verifier and the
/// salt that the verifier was computed with.
#[derive(Debug, Clone)]
pub struct User {
    pub email: String,
    pub verifier: Vec<u8>,
    pub salt: Vec<u8>,
}

/// A stored password entry.
#[derive(Debug, Clone)]
pub struct Password {
    pub name: String,
    pub password: String,
}

impl User {
    /// The row that a registration request inserts: the request's e-mail
    /// address, verifier and salt, unchanged.
    pub fn from_register_request(req: RegisterRequest) -> (user: User)
        ensures
            user.email@ == req.email@,
            user.verifier@ == req.verifier@,
            user.salt@ == req.salt@,
    {
        User { email: req.email, verifier: req.verifier, salt: req.salt }
    }
}

} // verus!
