use psw::client::LoginStage;
use psw::client::{
    create_salt_and_verifier, registration_request, registration_request_with_salt,
    ClientLogin, ClientLoginAction, ClientLoginError, ClientSession, LoginOutcome,
};
use psw::messages::{LoginRequest, LoginResponse, LoginResponsePartOne, LoginResponsePartTwo};
use psw::models::User;
use psw::server::{ServerLogin, ServerLoginAction, ServerLoginError};

fn sent_request(action: ClientLoginAction) -> LoginRequest {
    match action {
        ClientLoginAction::Send(r) => r,
        other => panic!("expected a request, got {:?}", other),
    }
}

fn reply(action: ServerLoginAction) -> LoginResponse {
    match action {
        ServerLoginAction::Reply(r) => r,
        other => panic!("expected a reply, got {:?}", other),
    }
}

/// Runs a whole login of `password` against the stored `user`, returning the
/// client's last action, or the server's abort.
fn run_login(user: &User, email: &str, password: &str) -> Result<ClientLoginAction, ServerLoginError> {
    let (mut client, first) = ClientLogin::start(email.to_string(), password.to_string());
    let mut server = ServerLogin::new();
    let email_asked = match server.on_request(first) {
        ServerLoginAction::LookUpUser(e) => e,
        other => panic!("expected a lookup, got {:?}", other),
    };
    let record = if email_asked == user.email {
        Some((user.salt.clone(), user.verifier.clone()))
    } else {
        None
    };
    let part_one = match server.on_user_record(record) {
        ServerLoginAction::Abort(e) => return Err(e),
        other => reply(other),
    };
    let second = sent_request(client.on_response(part_one));
    let part_two = match server.on_request(second) {
        ServerLoginAction::Abort(e) => return Err(e),
        other => reply(other),
    };
    Ok(client.on_response(part_two))
}

#[test]
fn registered_user_logs_in() {
    let req = registration_request("alice@example.com".to_string(), "correct horse");
    let user = User::from_register_request(req);
    let end = run_login(&user, "alice@example.com", "correct horse").unwrap();
    assert!(matches!(end, ClientLoginAction::Report(LoginOutcome::Success)));
}

#[test]
fn wrong_password_is_refused_by_server() {
    let req = registration_request("alice@example.com".to_string(), "correct horse");
    let user = User::from_register_request(req);
    let end = run_login(&user, "alice@example.com", "battery staple");
    assert_eq!(end.unwrap_err(), ServerLoginError::ClientProof);
}

#[test]
fn unknown_user_is_not_found() {
    let req = registration_request("alice@example.com".to_string(), "pw");
    let user = User::from_register_request(req);
    let end = run_login(&user, "bob@example.com", "pw");
    assert_eq!(end.unwrap_err(), ServerLoginError::UserNotFound);
    assert_eq!(ServerLoginError::UserNotFound.message(), "User not found");
}

#[test]
fn registration_carries_email_salt_and_srp_verifier() {
    let salt = vec![7u8; 32];
    let req = registration_request_with_salt("carol@example.com".to_string(), "pw", salt.clone());
    assert_eq!(req.email, "carol@example.com");
    assert_eq!(req.salt, salt);
    let expected = srp::client::SrpClient::<blake2::Blake2b512>::new(&srp::groups::G_4096)
        .compute_verifier(b"carol@example.com", b"pw", &salt);
    assert_eq!(req.verifier, expected);
    let user = User::from_register_request(req);
    assert_eq!(user.email, "carol@example.com");
    assert_eq!(user.salt, salt);
    assert_eq!(user.verifier, expected);
}

#[test]
fn server_proof_that_is_wrong_is_denied() {
    let req = registration_request("dave@example.com".to_string(), "pw");
    let (mut client, _first) = ClientLogin::start("dave@example.com".to_string(), "pw".to_string());
    let mut server = ServerLogin::new();
    let part_one = reply(server.on_user_record(Some((req.salt.clone(), req.verifier.clone()))));
    let _second = sent_request(client.on_response(part_one));
    let forged = LoginResponse::PartTwo(LoginResponsePartTwo { status_code: 200, server_proof: vec![0u8; 64] });
    let end = client.on_response(forged);
    assert!(matches!(end, ClientLoginAction::Report(LoginOutcome::Denied)));
    assert_eq!(LoginOutcome::Denied.message(), "Login denied.");
    assert_eq!(LoginOutcome::Success.message(), "Login success.");
}

#[test]
fn zero_public_b_aborts_client() {
    let (mut client, _first) = ClientLogin::start("e@example.com".to_string(), "pw".to_string());
    let part_one = LoginResponse::PartOne(LoginResponsePartOne { status_code: 200, public_b: vec![0u8], salt: vec![1u8] });
    let end = client.on_response(part_one);
    assert!(matches!(end, ClientLoginAction::Abort(ClientLoginError::VerifierCreation)));
    assert_eq!(ClientLoginError::VerifierCreation.message(), "Failed to create client verifier.");
}

#[test]
fn proof_before_handshake_aborts_client() {
    let (mut client, _first) = ClientLogin::start("e@example.com".to_string(), "pw".to_string());
    assert!(matches!(client.on_response(LoginResponse::Empty), ClientLoginAction::Continue));
    let part_two = LoginResponse::PartTwo(LoginResponsePartTwo { status_code: 200, server_proof: vec![1u8] });
    let end = client.on_response(part_two);
    assert!(matches!(end, ClientLoginAction::Abort(ClientLoginError::UninitializedVerifier)));
    assert_eq!(ClientLoginError::UninitializedVerifier.message(), "Uninitialized verifier.");
}

#[test]
fn server_refuses_zero_public_a_and_empty_requests() {
    let mut server = ServerLogin::new();
    let req = LoginRequest::PartTwo(psw::messages::LoginRequestPartTwo { public_a: vec![0u8, 0u8], client_proof: vec![] });
    assert!(matches!(server.on_request(req), ServerLoginAction::Abort(ServerLoginError::ProcessReply)));
    assert!(matches!(server.on_request(LoginRequest::Empty), ServerLoginAction::Abort(ServerLoginError::EmptyRequest)));
    assert_eq!(ServerLoginError::ProcessReply.message(), "Failed to process reply");
    assert_eq!(ServerLoginError::ClientProof.message(), "Failed to verify client");
    assert_eq!(ServerLoginError::EmptyRequest.message(), "not yet implemented");
}

#[test]
fn desktop_session_logs_in() {
    let (salt, verifier) = create_salt_and_verifier("frank", "pw");
    assert_eq!(salt.len(), 32);
    let mut session = ClientSession::new();
    assert_eq!(session.verify_server_proof(vec![1, 2, 3]), Err("No verifier found".to_string()));
    let a_pub = session.public_a();
    let mut server = ServerLogin::new();
    let (public_b, salt_back) = match reply(server.on_user_record(Some((salt.clone(), verifier)))) {
        LoginResponse::PartOne(p) => (p.public_b, p.salt),
        other => panic!("unexpected {:?}", other),
    };
    assert_eq!(salt_back, salt);
    let proof = session.compute_verifier("frank", "pw", salt, public_b);
    let req = LoginRequest::PartTwo(psw::messages::LoginRequestPartTwo { public_a: a_pub, client_proof: proof });
    let server_proof = match reply(server.on_request(req)) {
        LoginResponse::PartTwo(p) => p.server_proof,
        other => panic!("unexpected {:?}", other),
    };
    assert_eq!(session.verify_server_proof(server_proof), Ok(()));
    assert_eq!(
        session.verify_server_proof(vec![9u8; 64]),
        Err("Server proof verification failed".to_string())
    );
}

#[test]
fn public_values_are_nonzero_and_fit_512_bytes() {
    let mut session = ClientSession::new();
    let a_pub = session.public_a();
    assert!(!a_pub.is_empty() && a_pub.len() <= 512);
    assert!(psw::bigint::is_valid_public_value(&a_pub));
    let (_salt, verifier) = create_salt_and_verifier("h", "pw");
    assert!(verifier.len() <= 512);
    assert!(psw::bigint::is_valid_public_value(&verifier));
}

#[test]
fn client_login_stage_moves_forward() {
    let (mut client, _first) = ClientLogin::start("i@example.com".to_string(), "pw".to_string());
    assert_eq!(client.stage(), LoginStage::AwaitingPartOne);
    client.on_response(LoginResponse::Empty);
    assert_eq!(client.stage(), LoginStage::AwaitingPartTwo);
    client.on_response(LoginResponse::Empty);
    assert_eq!(client.stage(), LoginStage::Finished);
    assert!(matches!(client.on_response(LoginResponse::Empty), ClientLoginAction::Continue));
    assert_eq!(client.stage(), LoginStage::Finished);
}
