use argon2::password_hash::{PasswordHasher, Salt};
use num_bigint::BigUint;
use psw::bigint::is_valid_public_value;
use psw::bytes::{bytes_equal, canonical_be};
use psw::error::ActionError;
use psw::messages::StatusCode;
use psw::server::register_reply;
use psw::text::{parse_email, trim_white_space};
use psw::utils::compute_server_value_b;

#[test]
fn canonical_be_drops_leading_zeros() {
    assert_eq!(canonical_be(&[0, 0, 1, 2]), vec![1, 2]);
    assert_eq!(canonical_be(&[0, 0, 0]), vec![0]);
    assert_eq!(canonical_be(&[]), vec![0]);
    assert_eq!(canonical_be(&[5, 0]), vec![5, 0]);
}

#[test]
fn bytes_equal_compares_contents() {
    assert!(bytes_equal(&[1, 2, 3], &[1, 2, 3]));
    assert!(!bytes_equal(&[1, 2, 3], &[1, 2, 4]));
    assert!(!bytes_equal(&[1, 2], &[1, 2, 3]));
    assert!(bytes_equal(&[], &[]));
}

#[test]
fn public_values_zero_modulo_n_are_invalid() {
    let n = srp::groups::G_4096.n.clone();
    assert!(!is_valid_public_value(&[0]));
    assert!(!is_valid_public_value(&[]));
    assert!(!is_valid_public_value(&n.to_bytes_be()));
    assert!(is_valid_public_value(&[2]));
    let twice_n = (&n + &n).to_bytes_be();
    assert!(!is_valid_public_value(&twice_n));
    assert!(is_valid_public_value(&(&n + BigUint::from(1u8)).to_bytes_be()));
    assert!(is_valid_public_value(&(&n - BigUint::from(1u8)).to_bytes_be()));
}

#[test]
fn trimming_and_email_parsing() {
    assert_eq!(trim_white_space("  a b \n"), "a b");
    assert_eq!(trim_white_space("\u{3000}x\u{2028}"), "x");
    assert_eq!(trim_white_space("   "), "");
    assert_eq!(parse_email(" john@example.com\n"), Some("john@example.com".to_string()));
    assert_eq!(parse_email("foxes"), None);
    assert_eq!(parse_email("@example.com"), None);
    assert_eq!(parse_email(""), None);
}

#[test]
fn action_errors_answer_with_status_and_empty_message() {
    assert_eq!(ActionError::BadRequest.status_code(), 400);
    assert_eq!(ActionError::InternalServerError.status_code(), 500);
    assert_eq!(ActionError::BadRequest.error_message(), "");
    assert_eq!(ActionError::InternalServerError.error_message(), "");
    assert_eq!(ActionError::from_pool_error(), ActionError::InternalServerError);
}

#[test]
fn registration_replies() {
    let ok = register_reply(true).unwrap();
    assert_eq!(ok.status_code, 201);
    let err = register_reply(false).unwrap_err();
    assert_eq!(err.code, StatusCode::InvalidArgument);
    assert_eq!(err.message, "Bad Request.");
}

#[test]
fn server_value_b_matches_direct_computation() {
    let salt = "c29tZXNhbHQ";
    let v = "verifier";
    let private_b = [3u8, 7, 11];
    let got = compute_server_value_b(salt, v, &private_b).unwrap();

    let g = &srp::groups::G_4096.g;
    let n = &srp::groups::G_4096.n;
    let hash = argon2::Argon2::default()
        .hash_password(&(g + n).to_bytes_be(), Salt::from_b64(salt).unwrap())
        .unwrap();
    let k = BigUint::from_bytes_be(hash.hash.unwrap().as_bytes());
    let v_num = BigUint::from_bytes_be(v.as_bytes());
    let expected = k * v_num * g.modpow(&BigUint::from_bytes_be(&private_b), n);
    assert_eq!(got, expected.to_string());
}

#[test]
fn server_value_b_with_bad_salt_is_internal_error() {
    assert_eq!(compute_server_value_b("!!", "v", &[1]), Err(ActionError::InternalServerError));
    assert_eq!(compute_server_value_b("abc", "v", &[1]), Err(ActionError::InternalServerError));
}

#[test]
fn server_value_b_repeats_with_period_n_minus_one() {
    let salt = "c29tZXNhbHQ";
    let b = BigUint::from_bytes_be(&[3u8, 7, 11]);
    let shifted = &b + (&srp::groups::G_4096.n - BigUint::from(1u8));
    let first = compute_server_value_b(salt, "verifier", &b.to_bytes_be()).unwrap();
    let second = compute_server_value_b(salt, "verifier", &shifted.to_bytes_be()).unwrap();
    assert_eq!(first, second);
}

#[test]
fn confirmation_must_equal_password() {
    assert!(psw::text::passwords_match("hunter2", "hunter2"));
    assert!(!psw::text::passwords_match("hunter2", "hunter3"));
    assert!(!psw::text::passwords_match("hunter2", "hunter22"));
    assert!(psw::text::passwords_match("", ""));
    assert!(psw::text::passwords_match("pässwörd", "pässwörd"));
}

#[test]
fn srp_multiplier_is_the_written_constant() {
    let k = srp::utils::compute_k::<blake2::Blake2b512>(&srp::groups::G_4096).to_bytes_be();
    let expected = "233baaf370839d8c2667da4379c646cb3ccdd311cb5bc96046932e3faef6304c\
                    75769ad6ac92ab8752b4252835131a14a1b3bf6de1f8c5204339c29b56d1f838";
    let hex: String = k.iter().map(|b| format!("{:02x}", b)).collect();
    assert_eq!(hex, expected);
}
