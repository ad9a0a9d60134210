//! The messages that clients and the server exchange.

use vstd::prelude::*;

verus! {

/// A request to register an account: the e-mail address, the SRP password
/// verifier and the salt it was computed with.
#[derive(Debug, Clone)]
pub struct RegisterRequest {
    pub email: String,
    pub verifier: Vec<u8>,
    pub salt: Vec<u8>,
}

/// The server's answer to a registration.
#[derive(Debug, Clone)]
pub struct RegisterResponse {
    pub status_code: i32,
}

/// The first login message: who logs in.
#[derive(Debug, Clone)]
pub struct LoginRequestPartOne {
    pub email: String,
}

/// The second login message: the client's public ephemeral value `A` and
/// its proof `M1`.
#[derive(Debug, Clone)]
pub struct LoginRequestPartTwo {
    pub public_a: Vec<u8>,
    pub client_proof: Vec<u8>,
}

/// A message of the login stream from the client; `Empty` is a message
/// without a payload.
#[derive(Debug, Clone)]
pub enum LoginRequest {
    PartOne(LoginRequestPartOne),
    PartTwo(LoginRequestPartTwo),
    Empty,
}

/// The server's first login answer: its public ephemeral value `B` and the
/// user's salt.
#[derive(Debug, Clone)]
pub struct LoginResponsePartOne {
    pub status_code: i32,
    pub public_b: Vec<u8>,
    pub salt: Vec<u8>,
}

/// The server's second login answer: its proof `M2`.
#[derive(Debug, Clone)]
pub struct LoginResponsePartTwo {
    pub status_code: i32,
    pub server_proof: Vec<u8>,
}

/// A message of the login stream from the server; `Empty` is a message
/// without a payload.
#[derive(Debug, Clone)]
pub enum LoginResponse {
    PartOne(LoginResponsePartOne),
    PartTwo(LoginResponsePartTwo),
    Empty,
}

/// The gRPC status codes that the library answers with.
#[derive(Debug, Clone, Copy, PartialEq, Eq, Structural)]
pub enum StatusCode {
    InvalidArgument,
}

/// A failed gRPC call: its code and message.
#[derive(Debug, Clone)]
pub struct RpcStatus {
    pub code: StatusCode,
    pub message: String,
}

} // verus!
