use blake2::Blake2b512;
use psw::client::{ClientLogin, ClientLoginAction};
use psw::handshake::{AuthError, ClientVerifier, ServerVerifier};
use psw::messages::{LoginRequest, LoginResponse, LoginResponsePartOne};
use srp::client::SrpClient;
use srp::groups::G_4096;
use srp::server::SrpServer;

#[test]
fn client_sends_srp_public_value_and_proof() {
    let a = vec![3u8, 1, 4, 1, 5];
    let (mut login, first) =
        ClientLogin::start_with_secret("g@example.com".to_string(), "pw".to_string(), a.clone());
    match first {
        LoginRequest::PartOne(p) => assert_eq!(p.email, "g@example.com"),
        other => panic!("unexpected {:?}", other),
    }
    let salt = vec![9u8; 16];
    let b_pub = vec![2u8, 0, 0, 7];
    let part_one = LoginResponse::PartOne(LoginResponsePartOne {
        status_code: 200,
        public_b: b_pub.clone(),
        salt: salt.clone(),
    });
    let sent = match login.on_response(part_one) {
        ClientLoginAction::Send(LoginRequest::PartTwo(p)) => p,
        other => panic!("unexpected {:?}", other),
    };
    let client = SrpClient::<Blake2b512>::new(&G_4096);
    assert_eq!(sent.public_a, client.compute_public_ephemeral(&a));
    let expected = client.process_reply(&a, b"g@example.com", b"pw", &salt, &b_pub).unwrap();
    assert_eq!(sent.client_proof, expected.proof().to_vec());
}

#[test]
fn verifiers_agree_with_srp_crate() {
    let a = vec![42u8; 32];
    let b = vec![7u8; 32];
    let salt = vec![1u8; 32];
    let client = SrpClient::<Blake2b512>::new(&G_4096);
    let server = SrpServer::<Blake2b512>::new(&G_4096);
    let v = client.compute_verifier(b"user", b"pw", &salt);
    let a_pub = client.compute_public_ephemeral(&a);
    let b_pub = server.compute_public_ephemeral(&b, &v);

    let cv = ClientVerifier::new(&a, b"user", b"pw", &salt, &b_pub).unwrap();
    let sv = ServerVerifier::new(&b, &v, &a_pub).unwrap();
    let srp_client = client.process_reply(&a, b"user", b"pw", &salt, &b_pub).unwrap();
    let srp_server = server.process_reply(&b, &v, &a_pub).unwrap();

    assert_eq!(cv.client_proof(), srp_client.proof());
    assert_eq!(cv.key(), srp_client.key());
    assert_eq!(sv.server_proof(), srp_server.proof());
    assert_eq!(sv.key(), srp_server.key());
    assert_eq!(cv.key(), sv.key());
    assert_eq!(sv.verify_client(cv.client_proof()), Ok(()));
    assert_eq!(cv.verify_server(sv.server_proof()), Ok(()));
    assert!(srp_server.verify_client(cv.client_proof()).is_ok());
    assert!(srp_client.verify_server(sv.server_proof()).is_ok());
    assert_eq!(sv.verify_client(&[0u8; 64]), Err(AuthError::BadProof));
    assert_eq!(cv.verify_server(&[0u8; 64]), Err(AuthError::BadProof));
}

#[test]
fn leading_zeros_in_public_a_are_accepted_by_server() {
    let a = vec![5u8; 32];
    let b = vec![6u8; 32];
    let salt = vec![2u8; 8];
    let client = SrpClient::<Blake2b512>::new(&G_4096);
    let server = SrpServer::<Blake2b512>::new(&G_4096);
    let v = client.compute_verifier(b"u", b"p", &salt);
    let b_pub = server.compute_public_ephemeral(&b, &v);
    let cv = ClientVerifier::new(&a, b"u", b"p", &salt, &b_pub).unwrap();
    let mut a_pub = vec![0u8, 0u8];
    a_pub.extend(client.compute_public_ephemeral(&a));
    let sv = ServerVerifier::new(&b, &v, &a_pub).unwrap();
    assert_eq!(sv.verify_client(cv.client_proof()), Ok(()));
    let srp_server = server.process_reply(&b, &v, &a_pub).unwrap();
    assert!(srp_server.verify_client(cv.client_proof()).is_ok());
}

#[test]
fn zero_public_values_are_refused() {
    assert!(matches!(
        ClientVerifier::new(&[1], b"u", b"p", b"s", &G_4096.n.to_bytes_be()),
        Err(AuthError::IllegalPublicValue)
    ));
    assert!(matches!(ServerVerifier::new(&[1], &[1], &[0]), Err(AuthError::IllegalPublicValue)));
}
