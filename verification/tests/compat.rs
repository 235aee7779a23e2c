use passkeys::error::AppError;
use passkeys::flow::{Action, Reply, Stop};
use passkeys::types::{LoginResponse, RegistrationResponse};
use passkeys::webauthn::compat::{
    read_registration, receive_assertion, receive_registration, AssertionPayload,
    LoginResponseCompat, RegistrationPayload, RegistrationResponseCompat,
};

fn extensions() -> serde_json::Value {
    serde_json::from_str(r#"{"prf":{"enabled":true}}"#).unwrap()
}

fn registration() -> RegistrationPayload {
    RegistrationPayload {
        id: "+/8AED4=".to_string(),
        raw_id: "+/8AED4".to_string(),
        type_: "public-key".to_string(),
        client_data_json: "e30=".to_string(),
        attestation_object: "-_8=".to_string(),
        client_extension_results: Some(extensions()),
        name: Some("sent".to_string()),
    }
}

fn assertion() -> AssertionPayload {
    AssertionPayload {
        id: "+/8AED4=".to_string(),
        raw_id: "+/8AED4".to_string(),
        type_: "public-key".to_string(),
        client_data_json: "e30=".to_string(),
        authenticator_data: "QQ==".to_string(),
        signature: "QUI=".to_string(),
        user_handle: Some("dTE=".to_string()),
        client_extension_results: None,
    }
}

fn complaint<T>(result: Result<T, AppError>) -> String {
    match result {
        Err(AppError::BadRequest(text)) => text,
        _ => panic!("not a bad request"),
    }
}

#[test]
fn a_registration_is_normalized_member_by_member() {
    let response = RegistrationResponseCompat::parse(&Ok(registration()), None).unwrap();
    assert_eq!(response.id, "-_8AED4");
    assert_eq!(response.raw_id, "-_8AED4");
    assert_eq!(response.type_, "public-key");
    assert_eq!(response.response.client_data_json, "e30");
    assert_eq!(response.response.attestation_object, "-_8");
    assert_eq!(response.client_extension_results, Some(extensions()));
    assert_eq!(response.name.as_deref(), Some("sent"));
}

#[test]
fn a_given_name_replaces_the_one_that_was_sent() {
    let name = Some("given".to_string());
    let response = RegistrationResponseCompat::parse(&Ok(registration()), name).unwrap();
    assert_eq!(response.name.as_deref(), Some("given"));
}

#[test]
fn a_registration_with_a_bad_member_is_refused() {
    for member in 0..4 {
        let mut payload = registration();
        let bad = "%%%".to_string();
        match member {
            0 => payload.id = bad,
            1 => payload.raw_id = bad,
            2 => payload.client_data_json = bad,
            _ => payload.attestation_object = bad,
        }
        let result = RegistrationResponseCompat::parse(&Ok(payload), None);
        assert_eq!(complaint(result), "Invalid deviceResponse");
    }
    let result = RegistrationResponseCompat::parse(&Err("missing field".to_string()), None);
    assert_eq!(complaint(result), "Invalid deviceResponse");
}

#[test]
fn an_assertion_is_normalized_member_by_member() {
    let (id, response) = LoginResponseCompat::parse(&Ok(assertion())).unwrap();
    assert_eq!(id, "-_8AED4");
    assert_eq!(response.id, "-_8AED4");
    assert_eq!(response.raw_id, "-_8AED4");
    assert_eq!(response.response.client_data_json, "e30");
    assert_eq!(response.response.authenticator_data, "QQ");
    assert_eq!(response.response.signature, "QUI");
    assert_eq!(response.response.user_handle.as_deref(), Some("dTE"));
    assert_eq!(response.client_extension_results, None);
    let mut payload = assertion();
    payload.user_handle = None;
    let (_, response) = LoginResponseCompat::parse_str(&Ok(payload)).unwrap();
    assert_eq!(response.response.user_handle, None);
}

#[test]
fn an_assertion_with_a_bad_member_is_refused() {
    for member in 0..6 {
        let mut payload = assertion();
        let bad = "%%%".to_string();
        match member {
            0 => payload.id = bad,
            1 => payload.raw_id = bad,
            2 => payload.client_data_json = bad,
            3 => payload.authenticator_data = bad,
            4 => payload.signature = bad,
            _ => payload.user_handle = Some(bad),
        }
        let payload = Ok(payload);
        assert_eq!(complaint(LoginResponseCompat::parse(&payload)), "Invalid deviceResponse");
        assert_eq!(complaint(LoginResponseCompat::parse_str(&payload)), "Invalid WebAuthn response");
    }
    let payload = Err("eof".to_string());
    assert_eq!(complaint(LoginResponseCompat::parse(&payload)), "Invalid deviceResponse");
    assert_eq!(complaint(LoginResponseCompat::parse_str(&payload)), "Invalid WebAuthn response");
}

#[test]
fn conversions_keep_every_member() {
    let compat = RegistrationResponseCompat::normalize(&registration()).unwrap();
    let response = RegistrationResponse::from(compat);
    assert_eq!(response.name.as_deref(), Some("sent"));
    let compat = LoginResponseCompat::normalize(&assertion()).unwrap();
    let response = LoginResponse::from(compat);
    assert_eq!(response.response.signature, "QUI");
}

#[test]
fn a_body_is_handed_on_as_it_came() {
    let body = extensions();
    match read_registration(&body, &Vec::new(), 0) {
        Err(Stop::Ask(Action::ParseRegistration { body: asked })) => assert_eq!(asked, body),
        other => panic!("{other:?}"),
    }
    match receive_assertion(&body, &Vec::new(), 0) {
        Err(Stop::Ask(Action::ParseAssertion { body: asked })) => assert_eq!(asked, body),
        other => panic!("{other:?}"),
    }
    let replies = vec![Reply::Registration(Ok(registration()))];
    let (compat, at) = read_registration(&body, &replies, 0).unwrap();
    assert_eq!((compat.id.as_str(), at), ("-_8AED4", 1));
    let name = Some("given".to_string());
    let (response, _) = receive_registration(&body, name, &replies, 0).unwrap();
    assert_eq!(response.name.as_deref(), Some("given"));
    let replies = vec![Reply::Assertion(Ok(assertion()))];
    let ((id, _), _) = receive_assertion(&body, &replies, 0).unwrap();
    assert_eq!(id, "-_8AED4");
    assert!(matches!(read_registration(&body, &replies, 0), Err(Stop::Unexpected)));
}
