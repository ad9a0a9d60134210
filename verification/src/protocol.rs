//! Laws of the whole login protocol, across the client's and the server's
//! state machines.

use vstd::prelude::*;
use vstd::utf8::encode_utf8;
use crate::bytes::be_value;
use crate::client::{client_login_step, ClientLoginAction, ClientLoginView, LoginOutcome, LoginStage};
use crate::handshake::{lemma_verifiers_accept_each_other, server_verifier};
use crate::messages::LoginResponse;
use crate::srp6a::{client_public, group_modulus, password_verifier, server_public};

verus! {

/// A user who registered `(email, password)` with `salt` and logs in with
/// the same credentials is let in: when the server answers the first
/// request with the registered salt and its `B` (as `on_user_record` does
/// with the stored verifier), the client proceeds with a proof `M1` that
/// the server's verifier accepts (so `on_request` answers with `M2`), and
/// when the server's `M2` arrives the client reports success. The only
/// exception is a server value `B` that is zero modulo N.
pub proof fn lemma_registered_user_logs_in(
    email: Seq<char>,
    password: Seq<char>,
    salt: Seq<u8>,
    a: Seq<u8>,
    b: Seq<u8>,
    part_one: LoginResponse,
    part_two: LoginResponse,
)
    requires
        be_value(
            server_public(b, password_verifier(encode_utf8(email), encode_utf8(password), salt)),
        ) % group_modulus() != 0,
        part_one matches LoginResponse::PartOne(p) && p.salt@ == salt && p.public_b@
            == server_public(b, password_verifier(encode_utf8(email), encode_utf8(password), salt)),
        part_two matches LoginResponse::PartTwo(q) && server_verifier(
            b,
            password_verifier(encode_utf8(email), encode_utf8(password), salt),
            client_public(a),
        ) matches Some(sv) && q.server_proof@ == sv.server_proof,
    ensures
        ({
            let v = password_verifier(encode_utf8(email), encode_utf8(password), salt);
            let start = ClientLoginView {
                email,
                password,
                private_a: a,
                verifier: None,
                stage: LoginStage::AwaitingPartOne,
            };
            let after_one = client_login_step(start, part_one).0;
            &&& after_one.stage == LoginStage::AwaitingPartTwo
            &&& after_one.verifier matches Some(cv) && server_verifier(b, v, client_public(a))
                matches Some(sv) && cv.client_proof == sv.client_proof
            &&& client_login_step(after_one, part_two).1 == ClientLoginAction::Report(
                LoginOutcome::Success,
            )
        }),
{
    lemma_verifiers_accept_each_other(encode_utf8(email), encode_utf8(password), salt, a, b);
}

/// A step of the command-line client's login exchange never changes the
/// credentials or the private value, and the exchange only moves forward:
/// from the first stage to a later one, from the second stage to the end,
/// and once finished it stays finished and does nothing.
pub proof fn lemma_client_login_moves_forward(s: ClientLoginView, response: LoginResponse)
    ensures
        ({
            let (t, action) = client_login_step(s, response);
            &&& t.email == s.email && t.password == s.password && t.private_a == s.private_a
            &&& s.stage == LoginStage::AwaitingPartOne ==> t.stage != LoginStage::AwaitingPartOne
            &&& s.stage == LoginStage::AwaitingPartTwo ==> t.stage == LoginStage::Finished
            &&& s.stage == LoginStage::Finished ==> t == s && action == ClientLoginAction::Continue
        }),
{
}

/// The client reports a successful login only after its handshake, and
/// only for a server proof equal to the `M2` that its verifier expects.
pub proof fn lemma_success_only_with_expected_proof(s: ClientLoginView, response: LoginResponse)
    ensures
        client_login_step(s, response).1 == ClientLoginAction::Report(LoginOutcome::Success) ==> (
        s.stage == LoginStage::AwaitingPartTwo && (response matches LoginResponse::PartTwo(q)
            && s.verifier matches Some(v) && q.server_proof@ == v.server_proof)),
{
}

} // verus!
