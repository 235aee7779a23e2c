use passkeys::error::AppError;
use passkeys::flow::{Action, Progress, Reply, Stop};
use passkeys::handlers::twofactor::{
    activate_authenticator, activate_authenticator_put, activate_webauthn, active_provider_ids,
    delete_webauthn, disable_authenticator, disable_twofactor, disable_twofactor_put,
    get_authenticator, get_recover, get_twofactor, get_webauthn_challenge, get_webauthn_twofactor,
    is_twofactor_enabled, list_user_twofactors, webauthn_keys_json, WebauthnDeleteData,
    WebauthnRegisterData,
};
use passkeys::json::Json;
use passkeys::models::{
    DisableAuthenticatorData, DisableTwoFactorData, EnableAuthenticatorData, PasswordOrOtpData,
    TwoFactor, TwoFactorType, User,
};
use passkeys::sql::{DbError, SqlValue, Statement};
use passkeys::types::{PublicKeyCredentialCreationOptions, RpEntity, UserEntity};
use passkeys::util::NumberOrString;
use passkeys::webauthn::compat::RegistrationPayload;
use passkeys::webauthn::store::{StoreMode, WebauthnCredentialRow};

const BASE: &str = "https://vault.example.com";

fn value(json: &Json) -> serde_json::Value {
    match json {
        Json::Null => serde_json::Value::Null,
        Json::Bool(value) => serde_json::Value::from(*value),
        Json::Int(value) => serde_json::Value::from(*value),
        Json::UInt(value) => serde_json::Value::from(*value),
        Json::Text(text) => serde_json::Value::from(text.as_str()),
        Json::List(items) => serde_json::Value::Array(items.iter().map(value).collect()),
        Json::Object(members) => serde_json::Value::Object(
            members.iter().map(|(name, json)| (name.clone(), value(json))).collect(),
        ),
    }
}

fn parsed(text: &str) -> serde_json::Value {
    serde_json::from_str(text).unwrap()
}

fn shown(statement: &Statement) -> String {
    let mut text = statement.sql.clone();
    for param in &statement.params {
        text += &match param {
            SqlValue::Null => " | NULL".to_string(),
            SqlValue::Int(value) => format!(" | {value}"),
            SqlValue::Bool(value) => format!(" | {value}"),
            SqlValue::Text(text) => format!(" | '{text}'"),
        };
    }
    text
}

fn named(action: &Action) -> String {
    match action {
        Action::FindUser { user_id } => format!("find {user_id}"),
        Action::VerifyUser { data } => format!("verify {:?} {:?}", data.master_password_hash, data.otp),
        Action::DecodeBase32 { text } => format!("base32 {text}"),
        Action::ValidateTotp { token, key, last_used } => format!("totp {token} {key} {last_used}"),
        Action::GenerateTotpSecret => "secret".to_string(),
        Action::GenerateRecoveryCode => "recovery".to_string(),
        Action::NewTwoFactor { user_id, type_, secret } => format!("new {user_id} {type_:?} {secret}"),
        Action::CompareSecrets { stored, given } => format!("compare {stored} {given}"),
        Action::DescribeProviders { providers } => {
            let ids: Vec<&str> = providers.iter().map(|provider| provider.uuid.as_str()).collect();
            format!("describe {}", ids.join(" "))
        }
        Action::Execute { statement } => shown(statement),
        Action::Fetch { statement, rows } => format!("{rows:?}: {}", shown(statement)),
        Action::FetchTwoFactors { twofactors, security_keys } => {
            format!("{} & {}", shown(twofactors), shown(security_keys))
        }
        Action::ReadClock => "clock".to_string(),
        Action::ParseRegistration { .. } => "parse".to_string(),
        Action::ReadOrigin { .. } => "origin".to_string(),
        Action::StartRegistration { mode, user_id, username, display_name, config, now_ms } => {
            format!("start {mode:?} {user_id} {username} {display_name} {} {now_ms}", config.rp_id)
        }
        Action::FinishRegistration { mode, user_id, config, attestation, now_ms } => {
            format!("finish {mode:?} {user_id} {} {:?} {now_ms}", config.origin, attestation.name)
        }
        other => format!("{other:?}"),
    }
}

/// What an endpoint asks for, reply by reply, and how it ends.
fn run(
    endpoint: &dyn Fn(&Vec<Reply>) -> Progress<Json>,
    answers: Vec<Reply>,
) -> (Vec<String>, Result<serde_json::Value, String>) {
    let mut replies = Vec::new();
    let mut asked = Vec::new();
    let mut answers = answers.into_iter();
    loop {
        match endpoint(&replies) {
            Ok((json, at)) => {
                assert_eq!(at, replies.len());
                assert!(answers.next().is_none());
                return (asked, Ok(value(&json)));
            }
            Err(Stop::Fail(error)) => return (asked, Err(format!("{error:?}"))),
            Err(Stop::Unexpected) => return (asked, Err("unexpected".to_string())),
            Err(Stop::Ask(action)) => {
                asked.push(named(&action));
                match answers.next() {
                    Some(reply) => replies.push(reply),
                    None => return (asked, Err("waiting".to_string())),
                }
            }
        }
    }
}

fn user() -> Reply {
    Reply::User(Ok(User { name: Some("Ada".to_string()), totp_recover: Some("RC".to_string()) }))
}

fn verified() -> Reply {
    Reply::Verified(Ok(()))
}

fn done() -> Reply {
    Reply::Executed(Ok(Some(true)))
}

fn query_failed() -> DbError {
    DbError::Query("q".to_string())
}

fn password() -> PasswordOrOtpData {
    PasswordOrOtpData { master_password_hash: Some("h".to_string()), otp: None }
}

fn factor(atype: i32, enabled: bool) -> TwoFactor {
    TwoFactor {
        uuid: format!("tf-{atype}"),
        user_uuid: "u1".to_string(),
        atype,
        enabled,
        data: "KEY".to_string(),
        last_used: 77,
    }
}

fn key(provider_id: Option<i32>, name: &str) -> WebauthnCredentialRow {
    WebauthnCredentialRow {
        id: "r".to_string(),
        user_id: "u1".to_string(),
        usage: "twofactor".to_string(),
        provider_id,
        name: name.to_string(),
        credential_id: "c".to_string(),
        public_key: "pk".to_string(),
        counter: 0,
        aaguid: None,
        transports: "[]".to_string(),
        backup_eligible: 0,
        backup_state: 0,
        created_at: 0,
        last_used_at: 0,
    }
}

const FIND: &str = "find u1";
const VERIFY: &str = "verify Some(\"h\") None";
const LIST: &str = "SELECT * FROM twofactor WHERE user_uuid = ?1 AND atype < 1000 | 'u1' & SELECT 1 AS present FROM webauthn_credentials WHERE user_id = ?1 AND usage = 'twofactor' LIMIT 1 | 'u1'";
const EXISTING: &str =
    "TwoFactor: SELECT * FROM twofactor WHERE user_uuid = ?1 AND atype = ?2 | 'u1' | 0";
const CODE: &str = "RecoveryCode: SELECT totp_recover FROM users WHERE id = ?1 | 'u1'";
const CLEAR: &str = "UPDATE users SET totp_recover = NULL WHERE id = ?1 | 'u1'";

#[test]
fn types_have_their_provider_numbers() {
    assert_eq!(TwoFactorType::Authenticator.as_i32(), 0);
    assert_eq!(TwoFactorType::Webauthn.as_i32(), 7);
}

#[test]
fn active_provider_ids_are_sorted_and_distinct() {
    let twofactors =
        [factor(7, true), factor(0, true), factor(7, true), factor(5, true), factor(1, true)];
    assert_eq!(active_provider_ids(&twofactors), vec![0, 7]);
    assert_eq!(active_provider_ids(&[factor(7, true), factor(0, false)]), vec![7]);
    assert_eq!(active_provider_ids(&[factor(0, false), factor(5, true)]), Vec::<i32>::new());
    assert_eq!(active_provider_ids(&[]), Vec::<i32>::new());
}

#[test]
fn only_real_and_enabled_factors_count() {
    assert!(is_twofactor_enabled(&[factor(5, true), factor(0, true)]));
    assert!(is_twofactor_enabled(&[factor(7, true)]));
    assert!(!is_twofactor_enabled(&[factor(0, false), factor(7, false), factor(5, true)]));
    assert!(!is_twofactor_enabled(&[]));
}

#[test]
fn security_keys_are_listed_as_one_factor() {
    let replies = vec![Reply::TwoFactors(Ok((vec![factor(0, true)], 1)))];
    let (twofactors, at) = list_user_twofactors("u1", &replies, 0).unwrap();
    assert_eq!((twofactors.len(), at), (2, 1));
    assert_eq!(twofactors[0].uuid, "tf-0");
    assert_eq!(twofactors[1].uuid, "webauthn-2fa-u1");
    assert_eq!(twofactors[1].user_uuid, "u1");
    assert_eq!(twofactors[1].atype, 7);
    assert!(twofactors[1].enabled);
    assert_eq!(twofactors[1].data, "");
    assert_eq!(twofactors[1].last_used, 0);
    let replies = vec![Reply::TwoFactors(Ok((vec![factor(0, true)], 0)))];
    assert_eq!(list_user_twofactors("u1", &replies, 0).unwrap().0.len(), 1);
}

#[test]
fn factors_are_described_to_the_client() {
    let described = vec![Json::Int(1), Json::Int(2)];
    let (asked, answer) = run(
        &|replies| get_twofactor("u1", replies),
        vec![
            Reply::TwoFactors(Ok((vec![factor(5, false), factor(0, true)], 1))),
            Reply::Providers(described),
        ],
    );
    assert_eq!(asked, vec![LIST, "describe tf-0 webauthn-2fa-u1"]);
    assert_eq!(
        answer.unwrap(),
        parsed(r#"{"data":[1,2],"object":"list","continuationToken":null}"#)
    );
    let (_, answer) = run(
        &|replies| get_twofactor("u1", replies),
        vec![Reply::TwoFactors(Err(query_failed()))],
    );
    assert_eq!(answer.unwrap_err(), "Database");
}

#[test]
fn a_secret_is_shown_or_made() {
    let endpoint = |replies: &Vec<Reply>| get_authenticator("u1", &password(), replies);
    let (asked, answer) =
        run(&endpoint, vec![user(), verified(), Reply::TwoFactor(Ok(Some(factor(0, true))))]);
    assert_eq!(asked, vec![FIND, VERIFY, EXISTING]);
    assert_eq!(
        answer.unwrap(),
        parsed(r#"{"enabled":true,"key":"KEY","object":"twoFactorAuthenticator"}"#)
    );
    let (asked, answer) = run(
        &endpoint,
        vec![
            user(),
            verified(),
            Reply::TwoFactor(Ok(None)),
            Reply::Generated(Ok("NEW".to_string())),
        ],
    );
    assert_eq!(asked, vec![FIND, VERIFY, EXISTING, "secret"]);
    assert_eq!(
        answer.unwrap(),
        parsed(r#"{"enabled":false,"key":"NEW","object":"twoFactorAuthenticator"}"#)
    );
    let malformed = Reply::TwoFactor(Err(DbError::Row("r".to_string())));
    let (_, answer) = run(&endpoint, vec![user(), verified(), malformed]);
    assert_eq!(answer.unwrap_err(), "Internal");
}

#[test]
fn nothing_happens_before_the_caller_is_known() {
    let unauthorized = || AppError::Unauthorized("no".to_string());
    let endpoint = |replies: &Vec<Reply>| get_authenticator("u1", &password(), replies);
    let (asked, answer) = run(&endpoint, vec![Reply::User(Err(unauthorized()))]);
    assert_eq!(asked, vec![FIND]);
    assert_eq!(answer.unwrap_err(), "Unauthorized(\"no\")");
    let (asked, answer) = run(&endpoint, vec![user(), Reply::Verified(Err(unauthorized()))]);
    assert_eq!(asked, vec![FIND, VERIFY]);
    assert_eq!(answer.unwrap_err(), "Unauthorized(\"no\")");
}

fn enable() -> EnableAuthenticatorData {
    EnableAuthenticatorData {
        key: "gezdß".to_string(),
        token: "123456".to_string(),
        master_password_hash: Some("h".to_string()),
        otp: None,
    }
}

fn activation(existing: Option<TwoFactor>, code: Option<&str>) -> Vec<Reply> {
    vec![
        user(),
        verified(),
        Reply::Decoded(Ok(vec![0; 20])),
        Reply::TwoFactor(Ok(existing)),
        Reply::TimeStep(Ok(88)),
        done(),
        Reply::NewTwoFactor(factor(0, true)),
        done(),
        Reply::RecoveryCode(Ok(Some(code.map(str::to_string)))),
    ]
}

#[test]
fn one_time_passwords_are_turned_on() {
    let endpoint = |replies: &Vec<Reply>| activate_authenticator("u1", &enable(), replies);
    let (asked, answer) = run(&endpoint, activation(Some(factor(0, true)), Some("RC")));
    assert_eq!(
        asked,
        vec![
            FIND,
            VERIFY,
            "base32 GEZDSS",
            EXISTING,
            "totp 123456 GEZDSS 77",
            "DELETE FROM twofactor WHERE user_uuid = ?1 AND atype = ?2 | 'u1' | 0",
            "new u1 Authenticator GEZDSS",
            "INSERT INTO twofactor (uuid, user_uuid, atype, enabled, data, last_used) VALUES (?1, ?2, ?3, ?4, ?5, ?6) | 'tf-0' | 'u1' | 0 | 1 | 'KEY' | 88",
            CODE,
        ]
    );
    assert_eq!(
        answer.unwrap(),
        parsed(r#"{"enabled":true,"key":"GEZDSS","object":"twoFactorAuthenticator"}"#)
    );
}

#[test]
fn turning_on_makes_a_recovery_code_where_there_is_none() {
    let endpoint = |replies: &Vec<Reply>| activate_authenticator_put("u1", &enable(), replies);
    let mut replies = activation(None, None);
    replies.push(Reply::Generated(Ok("CODE".to_string())));
    replies.push(done());
    let (asked, answer) = run(&endpoint, replies);
    assert_eq!(asked[4], "totp 123456 GEZDSS 0");
    assert_eq!(asked[9], "recovery");
    assert_eq!(asked[10], "UPDATE users SET totp_recover = ?1 WHERE id = ?2 | 'CODE' | 'u1'");
    assert_eq!(asked.len(), 11);
    assert!(answer.is_ok());
}

#[test]
fn a_secret_of_the_wrong_length_is_refused() {
    let endpoint = |replies: &Vec<Reply>| activate_authenticator("u1", &enable(), replies);
    for length in [0, 19, 21] {
        let (asked, answer) =
            run(&endpoint, vec![user(), verified(), Reply::Decoded(Ok(vec![0; length]))]);
        assert_eq!(asked.len(), 3);
        assert_eq!(answer.unwrap_err(), "BadRequest(\"Invalid key length\")");
    }
}

#[test]
fn every_failure_ends_the_activation() {
    let endpoint = |replies: &Vec<Reply>| activate_authenticator("u1", &enable(), replies);
    let bad = || AppError::BadRequest("bad".to_string());
    for at in 0..9 {
        let mut replies: Vec<Reply> = activation(None, None).into_iter().take(at).collect();
        let (reply, error) = match at {
            0 => (Reply::User(Err(bad())), "BadRequest(\"bad\")"),
            1 => (Reply::Verified(Err(bad())), "BadRequest(\"bad\")"),
            2 => (Reply::Decoded(Err(bad())), "BadRequest(\"bad\")"),
            3 => (Reply::TwoFactor(Err(query_failed())), "Database"),
            4 => (Reply::TimeStep(Err(bad())), "BadRequest(\"bad\")"),
            5 | 7 => {
                let bind = DbError::Bind(AppError::Internal, "b".to_string());
                (Reply::Executed(Err(bind)), "Database")
            }
            6 => continue,
            _ => (Reply::RecoveryCode(Ok(None)), "Unauthorized(\"User not found\")"),
        };
        replies.push(reply);
        let (asked, answer) = run(&endpoint, replies);
        assert_eq!(asked.len(), at + 1);
        assert_eq!(answer.unwrap_err(), error);
    }
}

#[test]
fn a_reply_of_the_wrong_kind_is_noticed() {
    let endpoint = |replies: &Vec<Reply>| activate_authenticator("u1", &enable(), replies);
    for at in 0..9 {
        let mut replies: Vec<Reply> = activation(None, None).into_iter().take(at).collect();
        replies.push(Reply::Time(0));
        let (asked, answer) = run(&endpoint, replies);
        assert_eq!(asked.len(), at + 1);
        assert_eq!(answer.unwrap_err(), "unexpected");
    }
}

#[test]
fn replies_past_the_end_change_nothing() {
    let mut replies = activation(None, Some("RC"));
    let (first, at) = activate_authenticator("u1", &enable(), &replies).unwrap();
    replies.push(Reply::Time(0));
    let (second, still) = activate_authenticator("u1", &enable(), &replies).unwrap();
    assert_eq!((at, still), (9, 9));
    assert_eq!(value(&first), value(&second));
}

fn disable(type_: i32) -> DisableTwoFactorData {
    DisableTwoFactorData { master_password_hash: Some("h".to_string()), otp: None, type_ }
}

#[test]
fn one_time_passwords_are_turned_off() {
    let data = disable(0);
    let endpoint = |replies: &Vec<Reply>| disable_twofactor("u1", &data, replies);
    let (asked, answer) = run(
        &endpoint,
        vec![user(), verified(), done(), Reply::TwoFactors(Ok((Vec::new(), 0))), done()],
    );
    assert_eq!(
        asked,
        vec![
            FIND,
            VERIFY,
            "DELETE FROM twofactor WHERE user_uuid = ?1 AND atype = ?2 | 'u1' | 0",
            LIST,
            CLEAR,
        ]
    );
    assert_eq!(
        answer.unwrap(),
        parsed(r#"{"enabled":false,"type":0,"object":"twoFactorProvider"}"#)
    );
}

#[test]
fn security_keys_are_turned_off() {
    let data = disable(7);
    let endpoint = |replies: &Vec<Reply>| disable_twofactor_put("u1", &data, replies);
    let remaining = Reply::TwoFactors(Ok((vec![factor(0, true)], 0)));
    let (asked, answer) = run(&endpoint, vec![user(), verified(), done(), remaining]);
    assert_eq!(
        asked,
        vec![
            FIND,
            VERIFY,
            "DELETE FROM webauthn_credentials WHERE user_id = ?1 AND usage = 'twofactor' | 'u1'",
            LIST,
        ]
    );
    assert_eq!(
        answer.unwrap(),
        parsed(r#"{"enabled":false,"type":7,"object":"twoFactorProvider"}"#)
    );
}

#[test]
fn a_value_that_cannot_be_bound_is_told_apart() {
    let bind = || Reply::Executed(Err(DbError::Bind(AppError::Internal, "b".to_string())));
    for (type_, error) in [(7, "Internal"), (0, "Database")] {
        let data = disable(type_);
        let endpoint = |replies: &Vec<Reply>| disable_twofactor("u1", &data, replies);
        let (_, answer) = run(&endpoint, vec![user(), verified(), bind()]);
        assert_eq!(answer.unwrap_err(), error);
    }
}

#[test]
fn the_recovery_code_stays_while_a_factor_is_left() {
    let data = disable(5);
    let endpoint = |replies: &Vec<Reply>| disable_twofactor("u1", &data, replies);
    for (factors, keys, cleared) in [
        (vec![], 0, true),
        (vec![factor(0, false), factor(5, true)], 0, true),
        (vec![factor(0, true)], 0, false),
        (vec![], 1, false),
    ] {
        let mut replies = vec![user(), verified(), done(), Reply::TwoFactors(Ok((factors, keys)))];
        if cleared {
            replies.push(done());
        }
        let (asked, answer) = run(&endpoint, replies);
        assert_eq!(asked.contains(&CLEAR.to_string()), cleared);
        assert!(answer.is_ok());
    }
}

fn disable_by_key(type_: i32, key: &str) -> DisableAuthenticatorData {
    DisableAuthenticatorData {
        key: key.to_string(),
        master_password_hash: Some("h".to_string()),
        otp: None,
        type_,
    }
}

#[test]
fn one_time_passwords_are_turned_off_by_their_key() {
    let data = disable_by_key(0, "key");
    let endpoint = |replies: &Vec<Reply>| disable_authenticator("u1", &data, replies);
    let (asked, answer) = run(
        &endpoint,
        vec![
            user(),
            verified(),
            Reply::TwoFactor(Ok(Some(factor(0, true)))),
            Reply::Same(true),
            done(),
            Reply::TwoFactors(Ok((Vec::new(), 0))),
            done(),
        ],
    );
    assert_eq!(
        asked,
        vec![
            FIND,
            VERIFY,
            EXISTING,
            "compare KEY KEY",
            "DELETE FROM twofactor WHERE uuid = ?1 | 'tf-0'",
            LIST,
            CLEAR,
        ]
    );
    assert_eq!(
        answer.unwrap(),
        parsed(r#"{"enabled":false,"type":0,"object":"twoFactorProvider"}"#)
    );
}

#[test]
fn another_key_turns_nothing_off() {
    let data = disable_by_key(0, "other");
    let endpoint = |replies: &Vec<Reply>| disable_authenticator("u1", &data, replies);
    let existing = || Reply::TwoFactor(Ok(Some(factor(0, true))));
    let (asked, answer) =
        run(&endpoint, vec![user(), verified(), existing(), Reply::Same(false)]);
    assert_eq!(asked[3], "compare KEY OTHER");
    assert_eq!(
        answer.unwrap_err(),
        "BadRequest(\"TOTP key does not match recorded value\")"
    );
    let (_, answer) = run(&endpoint, vec![user(), verified(), Reply::TwoFactor(Ok(None))]);
    assert_eq!(answer.unwrap_err(), "BadRequest(\"TOTP not configured\")");
    let data = disable_by_key(7, "key");
    let (asked, answer) = run(&|replies| disable_authenticator("u1", &data, replies), Vec::new());
    assert!(asked.is_empty());
    assert_eq!(answer.unwrap_err(), "BadRequest(\"Invalid two factor type\")");
}

#[test]
fn the_recovery_code_is_shown() {
    let endpoint = |replies: &Vec<Reply>| get_recover("u1", &password(), replies);
    let (_, answer) = run(&endpoint, vec![user(), verified()]);
    assert_eq!(answer.unwrap(), parsed(r#"{"code":"RC","object":"twoFactorRecover"}"#));
    let nobody = Reply::User(Ok(User { name: None, totp_recover: None }));
    let (_, answer) = run(&endpoint, vec![nobody, verified()]);
    assert_eq!(answer.unwrap(), parsed(r#"{"code":null,"object":"twoFactorRecover"}"#));
}

#[test]
fn security_keys_are_shown_with_their_numbers() {
    let keys = webauthn_keys_json(&[key(Some(3), "A"), key(Some(-1), "B")]).unwrap();
    let shown: Vec<serde_json::Value> = keys.iter().map(value).collect();
    assert_eq!(
        serde_json::Value::Array(shown),
        parsed(r#"[{"id":3,"name":"A","migrated":false},{"id":-1,"name":"B","migrated":false}]"#)
    );
    assert!(webauthn_keys_json(&[]).unwrap().is_empty());
    let missing = webauthn_keys_json(&[key(Some(3), "A"), key(None, "B")]);
    assert!(matches!(missing, Err(AppError::Internal)));
}

#[test]
fn security_keys_of_the_caller_are_listed() {
    let endpoint = |replies: &Vec<Reply>| get_webauthn_twofactor("u1", &password(), replies);
    let (_, answer) = run(
        &endpoint,
        vec![user(), verified(), Reply::SecurityKeys(Ok(vec![key(Some(3), "A")]))],
    );
    assert_eq!(
        answer.unwrap(),
        parsed(
            r#"{"enabled":true,"keys":[{"id":3,"name":"A","migrated":false}],"object":"twoFactorWebAuthn"}"#
        )
    );
    let (_, answer) = run(&endpoint, vec![user(), verified(), Reply::SecurityKeys(Ok(vec![]))]);
    assert_eq!(
        answer.unwrap(),
        parsed(r#"{"enabled":false,"keys":[],"object":"twoFactorWebAuthn"}"#)
    );
    let (_, answer) =
        run(&endpoint, vec![user(), verified(), Reply::SecurityKeys(Ok(vec![key(None, "A")]))]);
    assert_eq!(answer.unwrap_err(), "Internal");
}

fn creation() -> PublicKeyCredentialCreationOptions {
    PublicKeyCredentialCreationOptions {
        challenge: "ch".to_string(),
        rp: RpEntity { id: "i".to_string(), name: "n".to_string() },
        user: UserEntity {
            id: "u1".to_string(),
            name: "n".to_string(),
            display_name: "d".to_string(),
        },
        pub_key_cred_params: Vec::new(),
        timeout: None,
        exclude_credentials: None,
        authenticator_selection: None,
        attestation: None,
    }
}

#[test]
fn a_challenge_is_marked_as_ok() {
    let endpoint =
        |replies: &Vec<Reply>| get_webauthn_challenge(BASE, "u1", "a@b.c", &password(), replies);
    let (asked, answer) = run(
        &endpoint,
        vec![user(), verified(), Reply::Time(5), Reply::RegistrationStarted(Ok(creation()))],
    );
    assert_eq!(
        asked,
        vec![FIND, VERIFY, "clock", "start TwoFactor u1 a@b.c Ada vault.example.com 5"]
    );
    let answer = answer.unwrap();
    assert_eq!(answer["challenge"], parsed("\"ch\""));
    assert_eq!(answer["status"], parsed("\"ok\""));
    assert_eq!(answer["errorMessage"], parsed("\"\""));
    assert_eq!(
        answer["authenticatorSelection"],
        parsed(r#"{"requireResidentKey":false,"userVerification":"discouraged"}"#)
    );
    let nobody = Reply::User(Ok(User { name: None, totp_recover: None }));
    let (asked, _) = run(&endpoint, vec![nobody, verified(), Reply::Time(5)]);
    assert_eq!(asked[3], "start TwoFactor u1 a@b.c a@b.c vault.example.com 5");
}

fn register(id: NumberOrString) -> WebauthnRegisterData {
    WebauthnRegisterData {
        master_password_hash: Some("h".to_string()),
        otp: None,
        id,
        device_response: parsed("{}"),
        name: "Key".to_string(),
    }
}

fn registration() -> Reply {
    Reply::Registration(Ok(RegistrationPayload {
        id: "QQ==".to_string(),
        raw_id: "QQ".to_string(),
        type_: "public-key".to_string(),
        client_data_json: "e30=".to_string(),
        attestation_object: "QQ".to_string(),
        client_extension_results: None,
        name: None,
    }))
}

#[test]
fn a_security_key_is_registered() {
    let data = register(NumberOrString::String("3".to_string()));
    let endpoint = |replies: &Vec<Reply>| activate_webauthn(BASE, "u1", &data, replies);
    let (asked, answer) = run(
        &endpoint,
        vec![
            user(),
            verified(),
            Reply::Presence(Ok(false)),
            Reply::Time(5),
            registration(),
            Reply::Origin(Some("moz-extension://x".to_string())),
            Reply::RegistrationFinished(Ok(())),
            Reply::RecoveryCode(Ok(Some(Some("RC".to_string())))),
            Reply::SecurityKeys(Ok(vec![key(Some(3), "Key")])),
        ],
    );
    assert_eq!(asked[2], "Presence: SELECT 1 AS present FROM webauthn_credentials WHERE user_id = ?1 AND usage = 'twofactor' AND provider_id = ?2 LIMIT 1 | 'u1' | 3");
    assert_eq!(asked[3..6], ["clock", "parse", "origin"]);
    let mode = StoreMode::TwoFactorRegistration { provider_id: 3, original_name: "Key".to_string() };
    assert_eq!(asked[6], format!("finish {mode:?} u1 moz-extension://x Some(\"Key\") 5"));
    assert_eq!(asked[7], CODE);
    assert_eq!(asked.len(), 9);
    assert_eq!(
        answer.unwrap(),
        parsed(
            r#"{"enabled":true,"keys":[{"id":3,"name":"Key","migrated":false}],"object":"twoFactorU2f"}"#
        )
    );
}

#[test]
fn a_number_that_is_taken_or_no_number_is_refused() {
    let data = register(NumberOrString::Number(3));
    let endpoint = |replies: &Vec<Reply>| activate_webauthn(BASE, "u1", &data, replies);
    let (_, answer) = run(&endpoint, vec![user(), verified(), Reply::Presence(Ok(true))]);
    assert_eq!(
        answer.unwrap_err(),
        "BadRequest(\"WebAuthn credential id already exists\")"
    );
    let data = register(NumberOrString::Number(1 << 40));
    let endpoint = |replies: &Vec<Reply>| activate_webauthn(BASE, "u1", &data, replies);
    let (asked, answer) = run(&endpoint, vec![user(), verified()]);
    assert_eq!(asked.len(), 2);
    assert_eq!(answer.unwrap_err(), "BadRequest(\"Number does not fit in i32\")");
}

#[test]
fn a_registration_that_fails_is_told() {
    let data = register(NumberOrString::Number(3));
    let endpoint = |replies: &Vec<Reply>| activate_webauthn(BASE, "u1", &data, replies);
    let start = || vec![user(), verified(), Reply::Presence(Ok(false)), Reply::Time(5)];
    let mut replies = start();
    replies.push(Reply::Registration(Err("missing".to_string())));
    let (_, answer) = run(&endpoint, replies);
    assert_eq!(answer.unwrap_err(), "BadRequest(\"Invalid deviceResponse\")");
    let mut replies = start();
    replies.push(registration());
    replies.push(Reply::Origin(None));
    replies.push(Reply::RegistrationFinished(Err("e".to_string())));
    let (_, answer) = run(&endpoint, replies);
    assert_eq!(answer.unwrap_err(), "BadRequest(\"WebAuthn registration failed\")");
}

fn delete(id: NumberOrString) -> WebauthnDeleteData {
    WebauthnDeleteData { master_password_hash: Some("h".to_string()), otp: None, id }
}

#[test]
fn a_security_key_is_deleted() {
    let data = delete(NumberOrString::Number(3));
    let endpoint = |replies: &Vec<Reply>| delete_webauthn("u1", &data, replies);
    let (asked, answer) = run(
        &endpoint,
        vec![
            user(),
            verified(),
            done(),
            Reply::TwoFactors(Ok((vec![], 0))),
            done(),
            Reply::SecurityKeys(Ok(vec![])),
        ],
    );
    assert_eq!(asked[2], "DELETE FROM webauthn_credentials WHERE user_id = ?1 AND usage = 'twofactor' AND provider_id = ?2 | 'u1' | 3");
    assert_eq!(asked[3], LIST);
    assert_eq!(asked[4], CLEAR);
    assert_eq!(
        answer.unwrap(),
        parsed(r#"{"enabled":false,"keys":[],"object":"twoFactorU2f"}"#)
    );
}

#[test]
fn an_unknown_security_key_is_refused() {
    let data = delete(NumberOrString::Number(3));
    let endpoint = |replies: &Vec<Reply>| delete_webauthn("u1", &data, replies);
    for changed in [None, Some(false)] {
        let (asked, answer) =
            run(&endpoint, vec![user(), verified(), Reply::Executed(Ok(changed))]);
        assert_eq!(asked.len(), 3);
        assert_eq!(answer.unwrap_err(), "BadRequest(\"Invalid credential id\")");
    }
    let data = delete(NumberOrString::String("x".to_string()));
    let (_, answer) = run(&|replies| delete_webauthn("u1", &data, replies), vec![user(), verified()]);
    assert_eq!(answer.unwrap_err(), "BadRequest(\"Invalid number\")");
}
