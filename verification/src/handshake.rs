//! The state that each side of an SRP login holds after the handshake: the
//! proof it sends, the proof it expects back, and the shared key.

use vstd::prelude::*;
use crate::bytes::{be_bytes, be_value, bytes_equal, canonical_be};
use crate::srp6a::{
    client_public, client_reply, client_process_reply, compute_client_public, compute_m1,
    compute_m2, compute_server_public, group_modulus, lemma_honest_login, password_verifier,
    server_public, server_process_reply, server_reply, srp_m1, srp_m2,
};

verus! {

/// Why an SRP step was refused.
#[derive(Debug, Clone, Copy, PartialEq, Eq, Structural)]
pub enum AuthError {
    /// The other side's public ephemeral value is zero modulo N.
    IllegalPublicValue,
    /// The other side's proof is not the expected one.
    BadProof,
}

/// The abstract content of a client verifier.
pub struct ClientVerifierView {
    /// `M1`, sent to the server.
    pub client_proof: Seq<u8>,
    /// `M2`, expected from the server.
    pub server_proof: Seq<u8>,
    /// The shared key.
    pub key: Seq<u8>,
}

/// The abstract content of a server verifier.
pub struct ServerVerifierView {
    /// `M1`, expected from the client.
    pub client_proof: Seq<u8>,
    /// `M2`, sent to the client.
    pub server_proof: Seq<u8>,
    /// The shared key.
    pub key: Seq<u8>,
}

/// What a client holds after processing the server's `B`; nothing when
/// `B % N == 0`.
pub open spec fn client_verifier(
    a: Seq<u8>,
    username: Seq<u8>,
    password: Seq<u8>,
    salt: Seq<u8>,
    b_pub: Seq<u8>,
) -> Option<ClientVerifierView> {
    match client_reply(a, username, password, salt, b_pub) {
        Some((m1, key)) => Some(
            ClientVerifierView { client_proof: m1, server_proof: srp_m2(client_public(a), m1, key), key },
        ),
        None => None,
    }
}

/// What the server holds after processing the client's `A`; nothing when
/// `A % N == 0`.
pub open spec fn server_verifier(b: Seq<u8>, v: Seq<u8>, a_pub: Seq<u8>) -> Option<
    ServerVerifierView,
> {
    match server_reply(b, v, a_pub) {
        Some((m2, key)) => Some(
            ServerVerifierView {
                client_proof: srp_m1(be_bytes(be_value(a_pub)), server_public(b, v), key),
                server_proof: m2,
                key,
            },
        ),
        None => None,
    }
}

/// A client after the handshake (the data of `srp`'s `SrpClientVerifier`).
pub struct ClientVerifier {
    client_proof: Vec<u8>,
    server_proof: Vec<u8>,
    key: Vec<u8>,
}

impl View for ClientVerifier {
    type V = ClientVerifierView;

    closed spec fn view(&self) -> ClientVerifierView {
        ClientVerifierView {
            client_proof: self.client_proof@,
            server_proof: self.server_proof@,
            key: self.key@,
        }
    }
}

impl ClientVerifier {
    /// Processes the server's reply `(salt, B)` with the private value `a`
    /// and the user's credentials; refused exactly when `B % N == 0`.
    pub fn new(a: &[u8], username: &[u8], password: &[u8], salt: &[u8], b_pub: &[u8]) -> (res: Result<
        ClientVerifier,
        AuthError,
    >)
        ensures
            res is Err <==> be_value(b_pub@) % group_modulus() == 0,
            res matches Err(e) ==> e == AuthError::IllegalPublicValue,
            res matches Ok(v) ==> client_verifier(a@, username@, password@, salt@, b_pub@) == Some(
                v@,
            ),
    {
        match client_process_reply(a, username, password, salt, b_pub) {
            Err(_) => Err(AuthError::IllegalPublicValue),
            Ok((client_proof, key)) => {
                let a_pub = compute_client_public(a);
                let server_proof = compute_m2(&a_pub, &client_proof, &key);
                Ok(ClientVerifier { client_proof, server_proof, key })
            },
        }
    }

    /// `M1`, the proof to send to the server.
    pub fn client_proof(&self) -> (p: &[u8])
        ensures
            p@ == self@.client_proof,
    {
        self.client_proof.as_slice()
    }

    /// The shared key.
    pub fn key(&self) -> (k: &[u8])
        ensures
            k@ == self@.key,
    {
        self.key.as_slice()
    }

    /// Checks the server's proof: accepted exactly when it is the expected `M2`.
    pub fn verify_server(&self, reply: &[u8]) -> (res: Result<(), AuthError>)
        ensures
            res is Ok <==> reply@ == self@.server_proof,
            res matches Err(e) ==> e == AuthError::BadProof,
    {
        if bytes_equal(self.server_proof.as_slice(), reply) {
            Ok(())
        } else {
            Err(AuthError::BadProof)
        }
    }
}

/// The server after the handshake (the data of `srp`'s `SrpServerVerifier`).
pub struct ServerVerifier {
    client_proof: Vec<u8>,
    server_proof: Vec<u8>,
    key: Vec<u8>,
}

impl View for ServerVerifier {
    type V = ServerVerifierView;

    closed spec fn view(&self) -> ServerVerifierView {
        ServerVerifierView {
            client_proof: self.client_proof@,
            server_proof: self.server_proof@,
            key: self.key@,
        }
    }
}

impl ServerVerifier {
    /// Processes the client's `A` with the private value `b` and the stored
    /// verifier `v`; refused exactly when `A % N == 0`.
    pub fn new(b: &[u8], v: &[u8], a_pub: &[u8]) -> (res: Result<ServerVerifier, AuthError>)
        ensures
            res is Err <==> be_value(a_pub@) % group_modulus() == 0,
            res matches Err(e) ==> e == AuthError::IllegalPublicValue,
            res matches Ok(s) ==> server_verifier(b@, v@, a_pub@) == Some(s@),
    {
        match server_process_reply(b, v, a_pub) {
            Err(_) => Err(AuthError::IllegalPublicValue),
            Ok((server_proof, key)) => {
                let a_canonical = canonical_be(a_pub);
                let b_pub = compute_server_public(b, v);
                let client_proof = compute_m1(&a_canonical, &b_pub, &key);
                Ok(ServerVerifier { client_proof, server_proof, key })
            },
        }
    }

    /// `M2`, the proof to send to the client.
    pub fn server_proof(&self) -> (p: &[u8])
        ensures
            p@ == self@.server_proof,
    {
        self.server_proof.as_slice()
    }

    /// The shared key.
    pub fn key(&self) -> (k: &[u8])
        ensures
            k@ == self@.key,
    {
        self.key.as_slice()
    }

    /// Checks the client's proof: accepted exactly when it is the expected `M1`.
    pub fn verify_client(&self, reply: &[u8]) -> (res: Result<(), AuthError>)
        ensures
            res is Ok <==> reply@ == self@.client_proof,
            res matches Err(e) ==> e == AuthError::BadProof,
    {
        if bytes_equal(self.client_proof.as_slice(), reply) {
            Ok(())
        } else {
            Err(AuthError::BadProof)
        }
    }
}

/// An honest login after registration succeeds on both sides: with the
/// verifier registered for `(username, password, salt)`, the client's `A`
/// and the server's `B`, both verifiers exist (unless `B` is zero modulo N;
/// `A` never is), they hold the same key, the server accepts the client's
/// proof and the client accepts the server's proof.
pub proof fn lemma_verifiers_accept_each_other(
    username: Seq<u8>,
    password: Seq<u8>,
    salt: Seq<u8>,
    a: Seq<u8>,
    b: Seq<u8>,
)
    requires
        be_value(server_public(b, password_verifier(username, password, salt))) % group_modulus()
            != 0,
    ensures
        ({
            let v = password_verifier(username, password, salt);
            client_verifier(a, username, password, salt, server_public(b, v)) matches Some(c)
                && server_verifier(b, v, client_public(a)) matches Some(s)
                && c.key == s.key
                && c.client_proof == s.client_proof
                && s.server_proof == c.server_proof
        }),
{
    lemma_honest_login(username, password, salt, a, b);
}

} // verus!
