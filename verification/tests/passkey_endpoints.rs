use passkeys::flow::{Action, Progress, Reply, Stop};
use passkeys::handlers::webauth::{
    delete_webauthn_credential, get_webauthn_credentials, post_assertion_options,
    post_attestation_options, post_webauthn_credential, put_webauthn_credential,
    CreateLoginCredentialRequest, UpdatePrfKeysRequest,
};
use passkeys::json::Json;
use passkeys::models::{PasswordOrOtpData, User};
use passkeys::sql::{SqlValue, Statement};
use passkeys::types::{
    PublicKeyCredentialCreationOptions, PublicKeyCredentialRequestOptions, RpEntity, UserEntity,
};
use passkeys::webauthn::compat::{AssertionPayload, RegistrationPayload};
use passkeys::webauthn::prf::LoginCredentialWithPrf;

const BASE: &str = "https://vault.example.com";

fn value(json: &Json) -> serde_json::Value {
    match json {
        Json::Null => serde_json::Value::Null,
        Json::Bool(value) => serde_json::Value::from(*value),
        Json::Int(value) => serde_json::Value::from(*value),
        Json::UInt(value) => serde_json::Value::from(*value),
        Json::Text(text) => serde_json::Value::from(text.as_str()),
        Json::List(items) => serde_json::Value::Array(items.iter().map(value).collect()),
        Json::Object(members) => serde_json::Value::Object(
            members.iter().map(|(name, json)| (name.clone(), value(json))).collect(),
        ),
    }
}

fn parsed(text: &str) -> serde_json::Value {
    serde_json::from_str(text).unwrap()
}

fn shown(statement: &Statement) -> String {
    let mut text = statement.sql.clone();
    for param in &statement.params {
        text += &match param {
            SqlValue::Null => " | NULL".to_string(),
            SqlValue::Int(value) => format!(" | {value}"),
            SqlValue::Bool(value) => format!(" | {value}"),
            SqlValue::Text(text) => format!(" | '{text}'"),
        };
    }
    text
}

fn named(action: &Action) -> String {
    match action {
        Action::FindUser { user_id } => format!("find {user_id}"),
        Action::VerifyUser { .. } => "verify".to_string(),
        Action::Execute { statement } => shown(statement),
        Action::Fetch { statement, rows } => format!("{rows:?}: {}", shown(statement)),
        Action::ReadClock => "clock".to_string(),
        Action::ParseRegistration { .. } | Action::ParseAssertion { .. } => "parse".to_string(),
        Action::StartRegistration { mode, display_name, now_ms, .. } => {
            format!("start {mode:?} {display_name} {now_ms}")
        }
        Action::StartLogin { mode, config, now_ms } => {
            format!("login {mode:?} {} {now_ms}", config.rp_id)
        }
        Action::FinishRegistration { mode, user_id, config, attestation, now_ms } => {
            format!("finish {mode:?} {user_id} {} {:?} {now_ms}", config.origin, attestation.name)
        }
        Action::FinishLogin { mode, config, assertion, now_ms } => {
            format!("assert {mode:?} {} {} {now_ms}", config.origin, assertion.id)
        }
        other => format!("{other:?}"),
    }
}

/// What an endpoint asks for, reply by reply, and how it ends.
fn run(
    endpoint: &dyn Fn(&Vec<Reply>) -> Progress<Json>,
    answers: Vec<Reply>,
) -> (Vec<String>, Result<serde_json::Value, String>) {
    let mut replies = Vec::new();
    let mut asked = Vec::new();
    let mut answers = answers.into_iter();
    loop {
        match endpoint(&replies) {
            Ok((json, at)) => {
                assert_eq!(at, replies.len());
                assert!(answers.next().is_none());
                return (asked, Ok(value(&json)));
            }
            Err(Stop::Fail(error)) => return (asked, Err(format!("{error:?}"))),
            Err(Stop::Unexpected) => return (asked, Err("unexpected".to_string())),
            Err(Stop::Ask(action)) => {
                asked.push(named(&action));
                match answers.next() {
                    Some(reply) => replies.push(reply),
                    None => return (asked, Err("waiting".to_string())),
                }
            }
        }
    }
}

fn user() -> Reply {
    Reply::User(Ok(User { name: None, totp_recover: None }))
}

fn verified() -> Reply {
    Reply::Verified(Ok(()))
}

fn password() -> PasswordOrOtpData {
    PasswordOrOtpData { master_password_hash: None, otp: Some("1".to_string()) }
}

fn credential() -> LoginCredentialWithPrf {
    LoginCredentialWithPrf {
        id: "row".to_string(),
        credential_id: "QQ".to_string(),
        name: "Phone".to_string(),
        transports: "[]".to_string(),
        supports_prf: false,
        encrypted_user_key: None,
        encrypted_public_key: None,
        encrypted_private_key: None,
    }
}

const LISTED: &str = r#"{"object":"list","data":[{"id":"row","name":"Phone","prfStatus":2,"encryptedUserKey":null,"encryptedPublicKey":null,"object":"webAuthnCredential"}],"continuationToken":null}"#;

const ROW: &str = "LoginRowId: SELECT id FROM webauthn_credentials WHERE credential_id = ?1 AND usage = 'login' | 'QQ'";

fn listed() -> Reply {
    Reply::LoginCredentials(Ok(vec![credential()]))
}

#[test]
fn login_passkeys_of_the_caller_are_listed() {
    let endpoint = |replies: &Vec<Reply>| get_webauthn_credentials("u1", replies);
    let (asked, answer) = run(&endpoint, vec![listed()]);
    assert_eq!(asked.len(), 1);
    assert_eq!(answer.unwrap(), parsed(LISTED));
    let (_, answer) = run(&endpoint, vec![Reply::LoginCredentials(Ok(vec![]))]);
    assert_eq!(
        answer.unwrap(),
        parsed(r#"{"object":"list","data":[],"continuationToken":null}"#)
    );
}

fn creation() -> PublicKeyCredentialCreationOptions {
    PublicKeyCredentialCreationOptions {
        challenge: "ch".to_string(),
        rp: RpEntity { id: "i".to_string(), name: "n".to_string() },
        user: UserEntity {
            id: "u1".to_string(),
            name: "n".to_string(),
            display_name: "d".to_string(),
        },
        pub_key_cred_params: Vec::new(),
        timeout: None,
        exclude_credentials: None,
        authenticator_selection: None,
        attestation: None,
    }
}

#[test]
fn options_for_a_new_login_passkey() {
    let endpoint =
        |replies: &Vec<Reply>| post_attestation_options(BASE, "u1", "a@b.c", &password(), replies);
    let (asked, answer) = run(
        &endpoint,
        vec![user(), verified(), Reply::Time(5), Reply::RegistrationStarted(Ok(creation()))],
    );
    assert_eq!(asked, vec!["find u1", "verify", "clock", "start Login a@b.c 5"]);
    let answer = answer.unwrap();
    assert_eq!(answer["object"], parsed("\"webAuthnCredentialCreateOptions\""));
    assert_eq!(answer["token"], parsed("null"));
    assert_eq!(
        answer["options"]["authenticatorSelection"],
        parsed(r#"{"requireResidentKey":true,"residentKey":"required","userVerification":"required"}"#)
    );
}

#[test]
fn options_for_using_a_login_passkey() {
    let options = PublicKeyCredentialRequestOptions {
        challenge: "ch".to_string(),
        timeout: None,
        rp_id: "vault.example.com".to_string(),
        allow_credentials: None,
        user_verification: None,
    };
    let endpoint = |replies: &Vec<Reply>| post_assertion_options(BASE, "u1", &password(), replies);
    let (asked, answer) = run(
        &endpoint,
        vec![user(), verified(), Reply::Time(5), Reply::LoginStarted(Ok(options))],
    );
    assert_eq!(asked, vec!["find u1", "verify", "clock", "login Login vault.example.com 5"]);
    assert_eq!(
        answer.unwrap(),
        parsed(
            r#"{"options":{"challenge":"ch","rpId":"vault.example.com","userVerification":"required"},"token":null,"object":"webAuthnLoginAssertionOptions"}"#
        )
    );
}

fn create(supports_prf: Option<bool>) -> CreateLoginCredentialRequest {
    CreateLoginCredentialRequest {
        device_response: parsed("{}"),
        name: "Phone".to_string(),
        token: None,
        supports_prf,
        encrypted_user_key: Some("uk".to_string()),
        encrypted_public_key: None,
        encrypted_private_key: Some("sk".to_string()),
    }
}

fn registration() -> Reply {
    Reply::Registration(Ok(RegistrationPayload {
        id: "QQ==".to_string(),
        raw_id: "QQ".to_string(),
        type_: "public-key".to_string(),
        client_data_json: "e30".to_string(),
        attestation_object: "QQ".to_string(),
        client_extension_results: None,
        name: Some("sent".to_string()),
    }))
}

#[test]
fn a_login_passkey_is_registered_with_its_keys() {
    for (supports_prf, bound) in [
        (Some(true), "true | 'uk' | NULL | 'sk'"),
        (Some(false), "false | NULL | NULL | NULL"),
        (None, "false | NULL | NULL | NULL"),
    ] {
        let data = create(supports_prf);
        let endpoint =
            |replies: &Vec<Reply>| post_webauthn_credential(BASE, "fresh", "u1", &data, replies);
        let (asked, answer) = run(
            &endpoint,
            vec![
                Reply::Time(5),
                registration(),
                Reply::RegistrationFinished(Ok(())),
                Reply::LoginRowId(Ok(Some("row".to_string()))),
                Reply::Executed(Ok(Some(true))),
                listed(),
            ],
        );
        assert_eq!(asked[..2], ["clock", "parse"]);
        assert_eq!(
            asked[2],
            format!(
                "finish LoginRegistration {{ row_id: \"fresh\", original_name: \"Phone\" }} u1 {BASE} Some(\"Phone\") 5"
            )
        );
        assert_eq!(asked[3], ROW);
        assert_eq!(
            asked[4],
            format!(
                "INSERT INTO webauthn_prf_credentials (credential_row_id, supports_prf, encrypted_user_key, encrypted_public_key, encrypted_private_key, updated_at) VALUES (?1, ?2, ?3, ?4, ?5, ?6) | 'row' | {bound} | 5"
            )
        );
        assert_eq!(answer.unwrap(), parsed(LISTED));
    }
}

#[test]
fn a_login_passkey_that_fails_keeps_no_keys() {
    let data = create(Some(true));
    let endpoint =
        |replies: &Vec<Reply>| post_webauthn_credential(BASE, "fresh", "u1", &data, replies);
    let (asked, answer) =
        run(&endpoint, vec![Reply::Time(5), Reply::Registration(Err("e".to_string()))]);
    assert_eq!(asked.len(), 2);
    assert_eq!(answer.unwrap_err(), "BadRequest(\"Invalid deviceResponse\")");
    let refused = Reply::RegistrationFinished(Err("e".to_string()));
    let (asked, answer) = run(&endpoint, vec![Reply::Time(5), registration(), refused]);
    assert_eq!(asked.len(), 3);
    assert_eq!(answer.unwrap_err(), "BadRequest(\"WebAuthn registration failed\")");
    let (_, answer) = run(
        &endpoint,
        vec![
            Reply::Time(5),
            registration(),
            Reply::RegistrationFinished(Ok(())),
            Reply::LoginRowId(Ok(None)),
        ],
    );
    assert_eq!(answer.unwrap_err(), "Internal");
}

fn update() -> UpdatePrfKeysRequest {
    UpdatePrfKeysRequest {
        device_response: parsed("{}"),
        token: None,
        encrypted_user_key: "uk".to_string(),
        encrypted_public_key: "pk".to_string(),
        encrypted_private_key: "sk".to_string(),
    }
}

fn assertion() -> Reply {
    Reply::Assertion(Ok(AssertionPayload {
        id: "QQ==".to_string(),
        raw_id: "QQ".to_string(),
        type_: "public-key".to_string(),
        client_data_json: "e30".to_string(),
        authenticator_data: "QQ".to_string(),
        signature: "QQ".to_string(),
        user_handle: None,
        client_extension_results: None,
    }))
}

#[test]
fn keys_of_an_own_passkey_are_replaced() {
    let endpoint = |replies: &Vec<Reply>| put_webauthn_credential(BASE, "u1", &update(), replies);
    let (asked, answer) = run(
        &endpoint,
        vec![
            Reply::Time(5),
            assertion(),
            Reply::LoginFinished(Ok("u1".to_string())),
            Reply::LoginRowId(Ok(Some("row".to_string()))),
            Reply::Executed(Ok(None)),
            listed(),
        ],
    );
    assert_eq!(asked[2], format!("assert Login {BASE} QQ 5"));
    assert_eq!(asked[3], ROW);
    assert!(asked[4].ends_with("WHERE credential_row_id = ?5 | 'uk' | 'pk' | 'sk' | 5 | 'row'"));
    assert_eq!(answer.unwrap(), parsed(LISTED));
}

#[test]
fn a_passkey_without_a_record_gets_its_first_keys() {
    let endpoint = |replies: &Vec<Reply>| put_webauthn_credential(BASE, "u1", &update(), replies);
    let mut enabled = credential();
    enabled.supports_prf = true;
    enabled.encrypted_user_key = Some("uk".to_string());
    enabled.encrypted_public_key = Some("pk".to_string());
    enabled.encrypted_private_key = Some("sk".to_string());
    let (asked, answer) = run(
        &endpoint,
        vec![
            Reply::Time(5),
            assertion(),
            Reply::LoginFinished(Ok("u1".to_string())),
            Reply::LoginRowId(Ok(Some("row".to_string()))),
            Reply::Executed(Ok(Some(false))),
            Reply::Executed(Ok(Some(true))),
            Reply::LoginCredentials(Ok(vec![enabled])),
        ],
    );
    assert!(asked[4].starts_with("UPDATE webauthn_prf_credentials SET supports_prf = 1,"));
    assert!(asked[5].starts_with("INSERT INTO webauthn_prf_credentials"));
    assert!(asked[5].ends_with("| 'row' | true | 'uk' | 'pk' | 'sk' | 5"));
    assert_eq!(asked.len(), 7);
    let answer = answer.unwrap();
    assert_eq!(answer["data"][0]["prfStatus"], parsed("0"));
    assert_eq!(answer["data"][0]["encryptedUserKey"], parsed("\"uk\""));
}

#[test]
fn keys_of_a_passkey_of_somebody_else_stay() {
    let endpoint = |replies: &Vec<Reply>| put_webauthn_credential(BASE, "u1", &update(), replies);
    let other = Reply::LoginFinished(Ok("u2".to_string()));
    let (asked, answer) = run(&endpoint, vec![Reply::Time(5), assertion(), other]);
    assert_eq!(asked.len(), 3);
    assert_eq!(answer.unwrap_err(), "BadRequest(\"WebAuthn credential mismatch\")");
    let refused = Reply::LoginFinished(Err("e".to_string()));
    let (_, answer) = run(&endpoint, vec![Reply::Time(5), assertion(), refused]);
    assert_eq!(answer.unwrap_err(), "BadRequest(\"WebAuthn login failed\")");
    let (_, answer) = run(&endpoint, vec![Reply::Time(5), Reply::Assertion(Err("e".to_string()))]);
    assert_eq!(answer.unwrap_err(), "BadRequest(\"Invalid deviceResponse\")");
    let (_, answer) = run(
        &endpoint,
        vec![
            Reply::Time(5),
            assertion(),
            Reply::LoginFinished(Ok("u1".to_string())),
            Reply::LoginRowId(Ok(None)),
        ],
    );
    assert_eq!(answer.unwrap_err(), "BadRequest(\"Credential not found\")");
}

#[test]
fn a_login_passkey_is_deleted() {
    let endpoint =
        |replies: &Vec<Reply>| delete_webauthn_credential("u1", "row", &password(), replies);
    let (asked, answer) =
        run(&endpoint, vec![user(), verified(), Reply::Executed(Ok(Some(true)))]);
    assert_eq!(asked[2], "DELETE FROM webauthn_credentials WHERE id = ?1 AND user_id = ?2 AND usage = 'login' | 'row' | 'u1'");
    assert_eq!(answer.unwrap(), parsed("{}"));
    let (_, answer) = run(&endpoint, vec![user(), verified(), Reply::Executed(Ok(None))]);
    assert_eq!(answer.unwrap_err(), "NotFound(\"Credential not found\")");
}
