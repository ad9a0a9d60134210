//! The client side: registration, the login session of the desktop client,
//! and the login exchange of the command-line client.

use vstd::prelude::*;
use vstd::utf8::encode_utf8;
use crate::bytes::be_value;
use crate::handshake::{client_verifier, ClientVerifier, ClientVerifierView};
use crate::messages::{
    LoginRequest, LoginRequestPartOne, LoginRequestPartTwo, LoginResponse, RegisterRequest,
};
use crate::srp6a::{
    client_public, compute_client_public, compute_verifier, group_modulus, password_verifier,
    random_secret,
};

verus! {

/// A fresh random salt and the password verifier of `(username, password)`
/// under it, as the desktop client registers them.
pub fn create_salt_and_verifier(username: &str, password: &str) -> (res: (Vec<u8>, Vec<u8>))
    ensures
        res.0@.len() == 32,
        res.1@ == password_verifier(encode_utf8(username@), encode_utf8(password@), res.0@),
{
    let salt = random_secret();
    let v = compute_verifier(username.as_bytes(), password.as_bytes(), salt.as_slice());
    (salt, v)
}

/// The registration request that the command-line client sends: the address,
/// the verifier computed from the address and the password, and the salt.
pub fn registration_request_with_salt(email: String, password: &str, salt: Vec<u8>) -> (req:
    RegisterRequest)
    ensures
        req.email@ == email@,
        req.salt@ == salt@,
        req.verifier@ == password_verifier(encode_utf8(email@), encode_utf8(password@), salt@),
{
    let verifier = compute_verifier(email.as_str().as_bytes(), password.as_bytes(), salt.as_slice());
    RegisterRequest { email, verifier, salt }
}

/// The registration request of the command-line client, with a fresh random
/// salt of 32 bytes.
pub fn registration_request(email: String, password: &str) -> (req: RegisterRequest)
    ensures
        req.email@ == email@,
        req.salt@.len() == 32,
        req.verifier@ == password_verifier(encode_utf8(email@), encode_utf8(password@), req.salt@),
{
    let salt = random_secret();
    registration_request_with_salt(email, password, salt)
}

/// The view of an optional verifier.
pub open spec fn verifier_view(v: Option<ClientVerifier>) -> Option<ClientVerifierView> {
    match v {
        Some(v) => Some(v@),
        None => None,
    }
}

/// The abstract state of the desktop client's login session.
pub struct ClientSessionView {
    pub private_a: Seq<u8>,
    pub verifier: Option<ClientVerifierView>,
}

/// The desktop client's login session: its private value `a` and, once the
/// server's reply has been processed, its verifier.
pub struct ClientSession {
    private_a: Vec<u8>,
    verifier: Option<ClientVerifier>,
}

impl View for ClientSession {
    type V = ClientSessionView;

    closed spec fn view(&self) -> ClientSessionView {
        ClientSessionView { private_a: self.private_a@, verifier: verifier_view(self.verifier) }
    }
}

impl ClientSession {
    /// A session with an empty private value and no verifier.
    pub fn new() -> (s: ClientSession)
        ensures
            s@.private_a == Seq::<u8>::empty(),
            s@.verifier is None,
    {
        ClientSession { private_a: Vec::new(), verifier: None }
    }

    /// Draws a fresh private value `a` (32 random bytes), keeps it, and
    /// returns `A = g^a % N`.
    pub fn public_a(&mut self) -> (a_pub: Vec<u8>)
        ensures
            final(self)@.private_a.len() == 32,
            a_pub@ == client_public(final(self)@.private_a),
            final(self)@.verifier == old(self)@.verifier,
    {
        let private_a = random_secret();
        let a_pub = compute_client_public(private_a.as_slice());
        self.private_a = private_a;
        a_pub
    }

    /// Processes the server's salt and `B` with the kept private value and
    /// the credentials, keeps the resulting verifier and returns the proof
    /// `M1`. `B` must not be zero modulo N.
    pub fn compute_verifier(&mut self, username: &str, password: &str, salt: Vec<u8>, public_b: Vec<u8>) -> (proof: Vec<u8>)
        requires
            be_value(public_b@) % group_modulus() != 0,
        ensures
            final(self)@.private_a == old(self)@.private_a,
            final(self)@.verifier == client_verifier(
                old(self)@.private_a,
                encode_utf8(username@),
                encode_utf8(password@),
                salt@,
                public_b@,
            ),
            final(self)@.verifier matches Some(v) && proof@ == v.client_proof,
    {
        let res = ClientVerifier::new(
            self.private_a.as_slice(),
            username.as_bytes(),
            password.as_bytes(),
            salt.as_slice(),
            public_b.as_slice(),
        );
        match res {
            Ok(verifier) => {
                let proof = vstd::slice::slice_to_vec(verifier.client_proof());
                self.verifier = Some(verifier);
                proof
            },
            Err(_) => {
                // `B % N != 0` rules this branch out.
                proof {
                    assert(false);
                }
                Vec::new()
            },
        }
    }

    /// Checks the server's proof `M2` against the kept verifier.
    pub fn verify_server_proof(&self, server_proof: Vec<u8>) -> (res: Result<(), String>)
        ensures
            self@.verifier is None ==> (res matches Err(m) && m@ == "No verifier found"@),
            self@.verifier matches Some(v) ==> (res is Ok <==> server_proof@ == v.server_proof),
            self@.verifier is Some ==> (res matches Err(m) ==> m@
                == "Server proof verification failed"@),
    {
        match &self.verifier {
            Some(verifier) => {
                if verifier.verify_server(server_proof.as_slice()).is_ok() {
                    return Ok(());
                }
                Err("Server proof verification failed".to_string())
            },
            None => Err("No verifier found".to_string()),
        }
    }
}

/// Where the command-line client's login exchange stands.
#[derive(Debug, Clone, Copy, PartialEq, Eq, Structural)]
pub enum LoginStage {
    /// The first request was sent; the server's salt and `B` are awaited.
    AwaitingPartOne,
    /// The server's proof is awaited.
    AwaitingPartTwo,
    /// Nothing more is awaited.
    Finished,
}

/// How a completed login ended.
#[derive(Debug, Clone, Copy, PartialEq, Eq, Structural)]
pub enum LoginOutcome {
    /// The server proved that it knows the verifier.
    Success,
    /// The server's proof was wrong.
    Denied,
}

impl LoginOutcome {
    /// The line that the command-line client prints.
    pub fn message(&self) -> (m: &'static str)
        ensures
            *self == LoginOutcome::Success ==> m@ == "Login success."@,
            *self == LoginOutcome::Denied ==> m@ == "Login denied."@,
    {
        match self {
            LoginOutcome::Success => "Login success.",
            LoginOutcome::Denied => "Login denied.",
        }
    }
}

/// Why the command-line client gives up a login.
#[derive(Debug, Clone, Copy, PartialEq, Eq, Structural)]
pub enum ClientLoginError {
    /// The server's `B` is zero modulo N.
    VerifierCreation,
    /// The server sent its proof before the handshake was done.
    UninitializedVerifier,
}

impl ClientLoginError {
    /// The message that the command-line client stops with.
    pub fn message(&self) -> (m: &'static str)
        ensures
            *self == ClientLoginError::VerifierCreation ==> m@
                == "Failed to create client verifier."@,
            *self == ClientLoginError::UninitializedVerifier ==> m@ == "Uninitialized verifier."@,
    {
        match self {
            ClientLoginError::VerifierCreation => "Failed to create client verifier.",
            ClientLoginError::UninitializedVerifier => "Uninitialized verifier.",
        }
    }
}

/// What the command-line client does after a server message.
#[derive(Debug, Clone)]
pub enum ClientLoginAction {
    /// Send this request on the login stream.
    Send(LoginRequest),
    /// Report the end of the login.
    Report(LoginOutcome),
    /// Stop with this error.
    Abort(ClientLoginError),
    /// Nothing to do; wait for the next message.
    Continue,
}

/// The abstract state of the command-line client's login exchange.
pub struct ClientLoginView {
    pub email: Seq<char>,
    pub password: Seq<char>,
    pub private_a: Seq<u8>,
    pub verifier: Option<ClientVerifierView>,
    pub stage: LoginStage,
}

/// The command-line client's login exchange.
pub struct ClientLogin {
    email: String,
    password: String,
    private_a: Vec<u8>,
    verifier: Option<ClientVerifier>,
    stage: LoginStage,
}

impl View for ClientLogin {
    type V = ClientLoginView;

    closed spec fn view(&self) -> ClientLoginView {
        ClientLoginView {
            email: self.email@,
            password: self.password@,
            private_a: self.private_a@,
            verifier: verifier_view(self.verifier),
            stage: self.stage,
        }
    }
}

/// The state that follows `s` when the server's message `response` arrives,
/// and what the client does then.
pub open spec fn client_login_step(s: ClientLoginView, response: LoginResponse) -> (ClientLoginView, ClientLoginAction) {
    match s.stage {
        LoginStage::AwaitingPartOne => match response {
            LoginResponse::PartOne(p) => match client_verifier(
                s.private_a,
                encode_utf8(s.email),
                encode_utf8(s.password),
                p.salt@,
                p.public_b@,
            ) {
                None => (
                    ClientLoginView { stage: LoginStage::Finished, ..s },
                    ClientLoginAction::Abort(ClientLoginError::VerifierCreation),
                ),
                Some(v) => (
                    ClientLoginView { stage: LoginStage::AwaitingPartTwo, verifier: Some(v), ..s },
                    ClientLoginAction::Continue,
                ),
            },
            _ => (ClientLoginView { stage: LoginStage::AwaitingPartTwo, ..s }, ClientLoginAction::Continue),
        },
        LoginStage::AwaitingPartTwo => {
            let t = ClientLoginView { stage: LoginStage::Finished, ..s };
            match response {
                LoginResponse::PartTwo(p) => match s.verifier {
                    None => (t, ClientLoginAction::Abort(ClientLoginError::UninitializedVerifier)),
                    Some(v) => (
                        t,
                        ClientLoginAction::Report(
                            if p.server_proof@ == v.server_proof {
                                LoginOutcome::Success
                            } else {
                                LoginOutcome::Denied
                            },
                        ),
                    ),
                },
                _ => (t, ClientLoginAction::Continue),
            }
        },
        LoginStage::Finished => (s, ClientLoginAction::Continue),
    }
}

impl ClientLogin {
    /// Starts a login with the given private value `a`: the exchange awaits
    /// the server's first answer, and the first request names the user.
    pub fn start_with_secret(email: String, password: String, private_a: Vec<u8>) -> (res: (
        ClientLogin,
        LoginRequest,
    ))
        ensures
            res.0@ == (ClientLoginView {
                email: email@,
                password: password@,
                private_a: private_a@,
                verifier: None,
                stage: LoginStage::AwaitingPartOne,
            }),
            res.1 matches LoginRequest::PartOne(p) && p.email@ == email@,
    {
        let request = LoginRequest::PartOne(LoginRequestPartOne { email: email.clone() });
        (ClientLogin { email, password, private_a, verifier: None, stage: LoginStage::AwaitingPartOne }, request)
    }

    /// Starts a login with a fresh random private value of 32 bytes.
    pub fn start(email: String, password: String) -> (res: (ClientLogin, LoginRequest))
        ensures
            res.0@.email == email@,
            res.0@.password == password@,
            res.0@.private_a.len() == 32,
            res.0@.verifier is None,
            res.0@.stage == LoginStage::AwaitingPartOne,
            res.1 matches LoginRequest::PartOne(p) && p.email@ == email@,
    {
        let private_a = random_secret();
        ClientLogin::start_with_secret(email, password, private_a)
    }

    /// Where the exchange stands.
    pub fn stage(&self) -> (stage: LoginStage)
        ensures
            stage == self@.stage,
    {
        self.stage
    }

    /// Handles the server's next message. After the salt and `B`, the client
    /// answers with `A` and its proof `M1`; after the server's proof `M2`,
    /// it reports success exactly when `M2` is the expected one.
    pub fn on_response(&mut self, response: LoginResponse) -> (action: ClientLoginAction)
        ensures
            final(self)@ == client_login_step(old(self)@, response).0,
            old(self)@.stage == LoginStage::AwaitingPartOne && response is PartOne
                && final(self)@.stage == LoginStage::AwaitingPartTwo ==> (action matches ClientLoginAction::Send(
                LoginRequest::PartTwo(m),
            ) && m.public_a@ == client_public(old(self)@.private_a) && m.client_proof@
                == final(self)@.verifier->Some_0.client_proof),
            !(old(self)@.stage == LoginStage::AwaitingPartOne && response is PartOne
                && final(self)@.stage == LoginStage::AwaitingPartTwo) ==> action == client_login_step(
                old(self)@,
                response,
            ).1,
    {
        match self.stage {
            LoginStage::AwaitingPartOne => {
                match response {
                    LoginResponse::PartOne(p) => {
                        let res = ClientVerifier::new(
                            self.private_a.as_slice(),
                            self.email.as_str().as_bytes(),
                            self.password.as_str().as_bytes(),
                            p.salt.as_slice(),
                            p.public_b.as_slice(),
                        );
                        match res {
                            Err(_) => {
                                self.stage = LoginStage::Finished;
                                ClientLoginAction::Abort(ClientLoginError::VerifierCreation)
                            },
                            Ok(verifier) => {
                                let public_a = compute_client_public(self.private_a.as_slice());
                                let client_proof = vstd::slice::slice_to_vec(verifier.client_proof());
                                self.verifier = Some(verifier);
                                self.stage = LoginStage::AwaitingPartTwo;
                                ClientLoginAction::Send(
                                    LoginRequest::PartTwo(LoginRequestPartTwo { public_a, client_proof }),
                                )
                            },
                        }
                    },
                    _ => {
                        self.stage = LoginStage::AwaitingPartTwo;
                        ClientLoginAction::Continue
                    },
                }
            },
            LoginStage::AwaitingPartTwo => {
                self.stage = LoginStage::Finished;
                match response {
                    LoginResponse::PartTwo(p) => match &self.verifier {
                        None => ClientLoginAction::Abort(ClientLoginError::UninitializedVerifier),
                        Some(verifier) => {
                            if verifier.verify_server(p.server_proof.as_slice()).is_ok() {
                                ClientLoginAction::Report(LoginOutcome::Success)
                            } else {
                                ClientLoginAction::Report(LoginOutcome::Denied)
                            }
                        },
                    },
                    _ => ClientLoginAction::Continue,
                }
            },
            LoginStage::Finished => ClientLoginAction::Continue,
        }
    }
}

} // verus!
