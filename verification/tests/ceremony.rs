use passkeys::error::AppError;
use passkeys::flow::{Action, Progress, Reply, Stop};
use passkeys::json::Json;
use passkeys::types::{
    AssertionResponse, AttestationResponse, AuthenticatorSelection, CredentialDescriptor,
    LoginResponse, PasskeyConfig, PubKeyCredParam, PublicKeyCredentialCreationOptions,
    PublicKeyCredentialRequestOptions, RegistrationResponse, RpEntity, UserEntity,
};
use passkeys::webauthn::build_passkey_config;
use passkeys::webauthn::ceremony;
use passkeys::webauthn::login;
use passkeys::webauthn::store::{StoreMode, WebauthnCredentialRow};
use passkeys::webauthn::twofactor;
use passkeys::webauthn::twofactor::ToBitwardenJson;

const BASE: &str = "https://vault.example.com";

fn value(json: &Json) -> serde_json::Value {
    match json {
        Json::Null => serde_json::Value::Null,
        Json::Bool(value) => serde_json::Value::from(*value),
        Json::Int(value) => serde_json::Value::from(*value),
        Json::UInt(value) => serde_json::Value::from(*value),
        Json::Text(text) => serde_json::Value::from(text.as_str()),
        Json::List(items) => serde_json::Value::Array(items.iter().map(value).collect()),
        Json::Object(members) => serde_json::Value::Object(
            members.iter().map(|(name, json)| (name.clone(), value(json))).collect(),
        ),
    }
}

fn parsed(text: &str) -> serde_json::Value {
    serde_json::from_str(text).unwrap()
}

fn config() -> PasskeyConfig {
    build_passkey_config(BASE)
}

fn creation() -> PublicKeyCredentialCreationOptions {
    PublicKeyCredentialCreationOptions {
        challenge: "ch".to_string(),
        rp: RpEntity { id: "vault.example.com".to_string(), name: "Warden".to_string() },
        user: UserEntity {
            id: "u1".to_string(),
            name: "a@b.c".to_string(),
            display_name: "Ada".to_string(),
        },
        pub_key_cred_params: vec![
            PubKeyCredParam { type_: "public-key".to_string(), alg: -7 },
            PubKeyCredParam { type_: "public-key".to_string(), alg: -257 },
        ],
        timeout: None,
        exclude_credentials: None,
        authenticator_selection: None,
        attestation: None,
    }
}

fn request() -> PublicKeyCredentialRequestOptions {
    PublicKeyCredentialRequestOptions {
        challenge: "ch".to_string(),
        timeout: Some(60000),
        rp_id: "vault.example.com".to_string(),
        allow_credentials: None,
        user_verification: None,
    }
}

fn attestation() -> RegistrationResponse {
    RegistrationResponse {
        id: "id".to_string(),
        raw_id: "id".to_string(),
        type_: "public-key".to_string(),
        response: AttestationResponse {
            client_data_json: "e30".to_string(),
            attestation_object: "QQ".to_string(),
        },
        client_extension_results: None,
        name: None,
    }
}

fn assertion() -> LoginResponse {
    LoginResponse {
        id: "id".to_string(),
        raw_id: "id".to_string(),
        type_: "public-key".to_string(),
        response: AssertionResponse {
            client_data_json: "e30".to_string(),
            authenticator_data: "QQ".to_string(),
            signature: "QQ".to_string(),
            user_handle: None,
        },
        client_extension_results: None,
    }
}

fn key(id: &str, transports: &str) -> WebauthnCredentialRow {
    WebauthnCredentialRow {
        id: id.to_string(),
        user_id: "u1".to_string(),
        usage: "twofactor".to_string(),
        provider_id: Some(1),
        name: "key".to_string(),
        credential_id: format!("cred-{id}"),
        public_key: "pk".to_string(),
        counter: 0,
        aaguid: None,
        transports: transports.to_string(),
        backup_eligible: 0,
        backup_state: 0,
        created_at: 0,
        last_used_at: 0,
    }
}

fn complaint<T: std::fmt::Debug>(result: Progress<T>) -> String {
    match result {
        Err(Stop::Fail(AppError::BadRequest(text))) => text,
        other => panic!("{other:?}"),
    }
}

#[test]
fn minimal_creation_options_as_json() {
    assert_eq!(
        value(&creation().to_bitwarden_json()),
        parsed(
            r#"{"challenge":"ch","excludeCredentials":[],
            "rp":{"id":"vault.example.com","name":"Warden"},
            "user":{"id":"u1","name":"a@b.c","displayName":"Ada"},
            "pubKeyCredParams":[{"type":"public-key","alg":-7},{"type":"public-key","alg":-257}]}"#
        )
    );
}

#[test]
fn full_creation_options_as_json() {
    let mut options = creation();
    options.timeout = Some(u64::MAX);
    options.attestation = Some("none".to_string());
    options.exclude_credentials = Some(vec![CredentialDescriptor {
        type_: "public-key".to_string(),
        id: "x".to_string(),
        transports: Some(vec!["usb".to_string()]),
    }]);
    options.authenticator_selection = Some(AuthenticatorSelection {
        authenticator_attachment: Some("platform".to_string()),
        require_resident_key: Some(true),
        resident_key: Some("required".to_string()),
        user_verification: Some("required".to_string()),
    });
    let json = value(&options.to_bitwarden_json());
    assert_eq!(json["timeout"], parsed("18446744073709551615"));
    assert_eq!(json["attestation"], parsed("\"none\""));
    assert_eq!(
        json["excludeCredentials"],
        parsed(r#"[{"type":"public-key","id":"x","transports":["usb"]}]"#)
    );
    assert_eq!(
        json["authenticatorSelection"],
        parsed(
            r#"{"authenticatorAttachment":"platform","requireResidentKey":true,"residentKey":"required","userVerification":"required"}"#
        )
    );
    options.authenticator_selection = Some(AuthenticatorSelection {
        authenticator_attachment: None,
        require_resident_key: None,
        resident_key: None,
        user_verification: None,
    });
    assert_eq!(value(&options.to_bitwarden_json())["authenticatorSelection"], parsed("{}"));
}

#[test]
fn request_options_as_json() {
    assert_eq!(
        value(&request().to_bitwarden_json()),
        parsed(r#"{"challenge":"ch","rpId":"vault.example.com","timeout":60000}"#)
    );
    let mut options = request();
    options.timeout = None;
    options.allow_credentials = Some(Vec::new());
    options.user_verification = Some("discouraged".to_string());
    assert_eq!(
        value(&options.to_bitwarden_json()),
        parsed(
            r#"{"challenge":"ch","rpId":"vault.example.com","allowCredentials":[],"userVerification":"discouraged"}"#
        )
    );
}

#[test]
fn registration_options_suit_the_store() {
    let none = Vec::new();
    let started = ceremony::start_ceremony_registration(
        StoreMode::TwoFactor,
        "u1",
        "a@b.c",
        "Ada",
        &config(),
        5,
        &none,
        0,
    );
    match started {
        Err(Stop::Ask(Action::StartRegistration {
            mode,
            user_id,
            username,
            display_name,
            config,
            now_ms,
        })) => {
            assert!(matches!(mode, StoreMode::TwoFactor));
            assert_eq!((user_id.as_str(), username.as_str()), ("u1", "a@b.c"));
            assert_eq!((display_name.as_str(), now_ms), ("Ada", 5));
            assert_eq!(config.origin, BASE);
        }
        other => panic!("{other:?}"),
    }
    let replies = vec![Reply::RegistrationStarted(Ok(creation()))];
    let start = |mode: StoreMode| {
        let (options, at) = ceremony::start_ceremony_registration(
            mode, "u1", "a@b.c", "Ada", &config(), 5, &replies, 0,
        )
        .unwrap();
        assert_eq!(at, 1);
        assert_eq!(options.challenge, "ch");
        options.authenticator_selection.unwrap()
    };
    assert_eq!(start(StoreMode::TwoFactor).require_resident_key, Some(false));
    assert_eq!(start(StoreMode::Login).require_resident_key, Some(true));
}

#[test]
fn login_and_second_step_registrations_choose_for_themselves() {
    let replies = vec![Reply::RegistrationStarted(Ok(creation()))];
    let (options, _) = login::start_login_registration(
        StoreMode::TwoFactor, "u1", "a@b.c", "Ada", &config(), 5, &replies, 0,
    )
    .unwrap();
    let selection = options.authenticator_selection.unwrap();
    assert_eq!(selection.resident_key.as_deref(), Some("required"));
    assert_eq!(selection.user_verification.as_deref(), Some("required"));
    let (options, _) = twofactor::start_2fa_registration(
        StoreMode::Login, "u1", "a@b.c", "Ada", &config(), 5, &replies, 0,
    )
    .unwrap();
    let selection = options.authenticator_selection.unwrap();
    assert_eq!(selection.resident_key, None);
    assert_eq!(selection.user_verification.as_deref(), Some("discouraged"));
}

#[test]
fn a_registration_that_cannot_start_is_a_bad_request() {
    let replies = vec![Reply::RegistrationStarted(Err("e".to_string()))];
    let result = ceremony::start_ceremony_registration(
        StoreMode::Login, "u1", "a@b.c", "Ada", &config(), 5, &replies, 0,
    );
    assert_eq!(complaint(result), "WebAuthn registration start failed");
}

#[test]
fn a_registration_is_finished_against_the_aligned_origin() {
    let mode = || StoreMode::TwoFactorRegistration {
        provider_id: 1,
        original_name: "K".to_string(),
    };
    let finish = |replies: &Vec<Reply>| {
        ceremony::finish_ceremony_registration(mode(), "u1", &config(), attestation(), 5, replies, 0)
    };
    assert!(matches!(finish(&Vec::new()), Err(Stop::Ask(Action::ReadOrigin { .. }))));
    for (origin, checked) in [("moz-extension://x", "moz-extension://x"), ("https://evil", BASE)] {
        match finish(&vec![Reply::Origin(Some(origin.to_string()))]) {
            Err(Stop::Ask(Action::FinishRegistration { config, attestation, .. })) => {
                assert_eq!(config.origin, checked);
                assert_eq!(attestation.id, "id");
            }
            other => panic!("{other:?}"),
        }
    }
    let replies = vec![Reply::Origin(None), Reply::RegistrationFinished(Ok(()))];
    assert!(matches!(finish(&replies), Ok(((), 2))));
    let replies = vec![Reply::Origin(None), Reply::RegistrationFinished(Err("e".to_string()))];
    assert_eq!(complaint(finish(&replies)), "WebAuthn registration failed");
}

#[test]
fn plain_registrations_are_finished_against_the_configured_origin() {
    for finish in [login::finish_login_registration, twofactor::finish_2fa_registration] {
        match finish(StoreMode::Login, "u1", &config(), attestation(), 5, &Vec::new(), 0) {
            Err(Stop::Ask(Action::FinishRegistration { config, .. })) => {
                assert_eq!(config.origin, BASE);
            }
            other => panic!("{other:?}"),
        }
        let replies = vec![Reply::RegistrationFinished(Err("e".to_string()))];
        let result = finish(StoreMode::Login, "u1", &config(), attestation(), 5, &replies, 0);
        assert_eq!(complaint(result), "WebAuthn registration failed");
    }
}

#[test]
fn a_login_must_verify_the_user() {
    for start in [ceremony::start_login_assertion, login::start_login_assertion] {
        let replies = vec![Reply::LoginStarted(Ok(request()))];
        let (options, _) = start(StoreMode::Login, &config(), 5, &replies, 0).unwrap();
        assert_eq!(options.user_verification.as_deref(), Some("required"));
        assert!(options.allow_credentials.is_none());
        let replies = vec![Reply::LoginStarted(Err("e".to_string()))];
        let result = start(StoreMode::Login, &config(), 5, &replies, 0);
        assert_eq!(complaint(result), "WebAuthn assertion start failed");
    }
}

#[test]
fn a_second_step_allows_the_keys_of_the_user() {
    let keys = [key("a", "[\"usb\"]"), key("b", "[]"), key("c", "nonsense")];
    for start in [ceremony::start_2fa_assertion, twofactor::start_2fa_assertion] {
        let replies = vec![Reply::LoginStarted(Ok(request()))];
        let (options, _) = start(StoreMode::TwoFactor, &config(), &keys, 5, &replies, 0).unwrap();
        assert_eq!(options.user_verification.as_deref(), Some("discouraged"));
        let allowed = options.allow_credentials.unwrap();
        assert_eq!(allowed.len(), 3);
        assert_eq!(allowed[0].type_, "public-key");
        assert_eq!(allowed[0].id, "cred-a");
        assert_eq!(allowed[0].transports, Some(vec!["usb".to_string()]));
        assert_eq!(allowed[1].transports, None);
        assert_eq!(allowed[2].transports, None);
    }
}

#[test]
fn an_assertion_tells_its_owner() {
    let finish = |expected: Option<&str>, owner: Result<String, String>| {
        let replies = vec![Reply::Origin(None), Reply::LoginFinished(owner)];
        ceremony::finish_assertion(
            StoreMode::TwoFactor, &config(), assertion(), expected, 5, &replies, 0,
        )
        .map(|(owner, at)| (owner.clone(), at))
    };
    assert_eq!(finish(None, Ok("u1".to_string())).unwrap(), ("u1".to_string(), 2));
    assert_eq!(finish(Some("u1"), Ok("u1".to_string())).unwrap(), ("u1".to_string(), 2));
    assert_eq!(complaint(finish(Some("u2"), Ok("u1".to_string()))), "WebAuthn verification failed");
    assert_eq!(complaint(finish(None, Err("e".to_string()))), "WebAuthn verification failed");
}

#[test]
fn plain_assertions_are_finished_against_the_configured_origin() {
    match login::finish_login_assertion(StoreMode::Login, &config(), assertion(), 5, &Vec::new(), 0) {
        Err(Stop::Ask(Action::FinishLogin { config, assertion, now_ms, .. })) => {
            assert_eq!(config.origin, BASE);
            assert_eq!((assertion.id.as_str(), now_ms), ("id", 5));
        }
        other => panic!("{other:?}"),
    }
    let refused = vec![Reply::LoginFinished(Err("e".to_string()))];
    let result =
        login::finish_login_assertion(StoreMode::Login, &config(), assertion(), 5, &refused, 0);
    assert_eq!(complaint(result), "WebAuthn login failed");
    let second = |expected: &str, replies: &Vec<Reply>| {
        twofactor::finish_2fa_assertion(
            StoreMode::TwoFactor, &config(), assertion(), expected, 5, replies, 0,
        )
        .map(|(owner, at)| (owner.clone(), at))
    };
    assert_eq!(complaint(second("u1", &refused)), "WebAuthn verification failed");
    let replies = vec![Reply::LoginFinished(Ok("u1".to_string()))];
    assert_eq!(second("u1", &replies).unwrap(), ("u1".to_string(), 1));
    assert_eq!(complaint(second("u2", &replies)), "WebAuthn verification failed");
}
