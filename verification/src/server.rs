//! The server side: answering registrations and running the login exchange
//! of one client.

use vstd::prelude::*;
use crate::handshake::{server_verifier, ServerVerifier};
use crate::messages::{
    LoginRequest, LoginResponse, LoginResponsePartOne, LoginResponsePartTwo, RegisterResponse,
    RpcStatus, StatusCode,
};
use crate::srp6a::{compute_server_public, random_secret, server_public};

verus! {

/// The answer to a registration, given whether the user row was inserted:
/// status 201, or an invalid-argument error "Bad Request.".
pub fn register_reply(inserted: bool) -> (res: Result<RegisterResponse, RpcStatus>)
    ensures
        inserted ==> (res matches Ok(r) && r.status_code == 201),
        !inserted ==> (res matches Err(s) && s.code == StatusCode::InvalidArgument && s.message@
            == "Bad Request."@),
{
    if inserted {
        Ok(RegisterResponse { status_code: 201 })
    } else {
        Err(RpcStatus { code: StatusCode::InvalidArgument, message: "Bad Request.".to_string() })
    }
}

/// Why the server gives up a login exchange.
#[derive(Debug, Clone, Copy, PartialEq, Eq, Structural)]
pub enum ServerLoginError {
    /// No user has the e-mail address of the first request.
    UserNotFound,
    /// The client's `A` is zero modulo N.
    ProcessReply,
    /// The client's proof is not the expected one.
    ClientProof,
    /// A request came without a payload.
    EmptyRequest,
}

impl ServerLoginError {
    /// The message that the exchange stops with.
    pub fn message(&self) -> (m: &'static str)
        ensures
            *self == ServerLoginError::UserNotFound ==> m@ == "User not found"@,
            *self == ServerLoginError::ProcessReply ==> m@ == "Failed to process reply"@,
            *self == ServerLoginError::ClientProof ==> m@ == "Failed to verify client"@,
            *self == ServerLoginError::EmptyRequest ==> m@ == "not yet implemented"@,
    {
        match self {
            ServerLoginError::UserNotFound => "User not found",
            ServerLoginError::ProcessReply => "Failed to process reply",
            ServerLoginError::ClientProof => "Failed to verify client",
            ServerLoginError::EmptyRequest => "not yet implemented",
        }
    }
}

/// What the server does after a message of the login stream.
#[derive(Debug, Clone)]
pub enum ServerLoginAction {
    /// Look up the salt and verifier stored for this e-mail address, and
    /// hand them to `on_user_record`.
    LookUpUser(String),
    /// Send this answer on the login stream.
    Reply(LoginResponse),
    /// Stop the exchange with this error.
    Abort(ServerLoginError),
}

/// The abstract state of the server's login exchange: its private value `b`
/// and the verifier of the user that logs in (empty until it is known).
pub struct ServerLoginView {
    pub private_b: Seq<u8>,
    pub verifier: Seq<u8>,
}

/// The server's side of one login exchange.
pub struct ServerLogin {
    private_b: Vec<u8>,
    verifier: Vec<u8>,
}

impl View for ServerLogin {
    type V = ServerLoginView;

    closed spec fn view(&self) -> ServerLoginView {
        ServerLoginView { private_b: self.private_b@, verifier: self.verifier@ }
    }
}

impl ServerLogin {
    /// An exchange with the given private value `b` and no verifier yet.
    pub fn with_secret(private_b: Vec<u8>) -> (s: ServerLogin)
        ensures
            s@.private_b == private_b@,
            s@.verifier == Seq::<u8>::empty(),
    {
        ServerLogin { private_b, verifier: Vec::new() }
    }

    /// An exchange with a fresh random private value of 32 bytes.
    pub fn new() -> (s: ServerLogin)
        ensures
            s@.private_b.len() == 32,
            s@.verifier == Seq::<u8>::empty(),
    {
        ServerLogin::with_secret(random_secret())
    }

    /// Handles a request of the login stream. The first request asks for the
    /// user's record; the second is answered with the server's proof `M2`
    /// exactly when `A` is not zero modulo N and the client's proof is the
    /// expected `M1`.
    pub fn on_request(&mut self, request: LoginRequest) -> (action: ServerLoginAction)
        ensures
            final(self)@ == old(self)@,
            request matches LoginRequest::PartOne(p) ==> (action matches ServerLoginAction::LookUpUser(
                e,
            ) && e@ == p.email@),
            request is Empty ==> action == ServerLoginAction::Abort(ServerLoginError::EmptyRequest),
            request matches LoginRequest::PartTwo(p) ==> match server_verifier(
                old(self)@.private_b,
                old(self)@.verifier,
                p.public_a@,
            ) {
                None => action == ServerLoginAction::Abort(ServerLoginError::ProcessReply),
                Some(sv) => if p.client_proof@ == sv.client_proof {
                    action matches ServerLoginAction::Reply(LoginResponse::PartTwo(r))
                        && r.status_code == 200 && r.server_proof@ == sv.server_proof
                } else {
                    action == ServerLoginAction::Abort(ServerLoginError::ClientProof)
                },
            },
    {
        match request {
            LoginRequest::PartOne(p) => ServerLoginAction::LookUpUser(p.email),
            LoginRequest::PartTwo(p) => {
                match ServerVerifier::new(
                    self.private_b.as_slice(),
                    self.verifier.as_slice(),
                    p.public_a.as_slice(),
                ) {
                    Err(_) => ServerLoginAction::Abort(ServerLoginError::ProcessReply),
                    Ok(verifier) => {
                        if verifier.verify_client(p.client_proof.as_slice()).is_err() {
                            ServerLoginAction::Abort(ServerLoginError::ClientProof)
                        } else {
                            let server_proof = vstd::slice::slice_to_vec(verifier.server_proof());
                            ServerLoginAction::Reply(
                                LoginResponse::PartTwo(
                                    LoginResponsePartTwo { status_code: 200, server_proof },
                                ),
                            )
                        }
                    },
                }
            },
            LoginRequest::Empty => ServerLoginAction::Abort(ServerLoginError::EmptyRequest),
        }
    }

    /// Handles the stored `(salt, verifier)` of the user named in the first
    /// request: the verifier is kept, and the answer carries the salt and
    /// `B = (k*v % N + g^b % N) % N`. Without a record the exchange stops.
    pub fn on_user_record(&mut self, record: Option<(Vec<u8>, Vec<u8>)>) -> (action:
        ServerLoginAction)
        ensures
            final(self)@.private_b == old(self)@.private_b,
            record is None ==> final(self)@ == old(self)@ && action == ServerLoginAction::Abort(
                ServerLoginError::UserNotFound,
            ),
            record matches Some((salt, v)) ==> final(self)@.verifier == v@ && (
            action matches ServerLoginAction::Reply(LoginResponse::PartOne(r))
                && r.status_code == 200 && r.salt@ == salt@ && r.public_b@ == server_public(
                old(self)@.private_b,
                v@,
            )),
    {
        match record {
            None => ServerLoginAction::Abort(ServerLoginError::UserNotFound),
            Some((salt, v)) => {
                let public_b = compute_server_public(self.private_b.as_slice(), v.as_slice());
                self.verifier = v;
                ServerLoginAction::Reply(
                    LoginResponse::PartOne(LoginResponsePartOne { status_code: 200, public_b, salt }),
                )
            },
        }
    }
}

} // verus!
