use passkeys::error::AppError;
use passkeys::flow::{Action, Reply, Rows, Stop};
use passkeys::json::Json;
use passkeys::models::WebAuthnRotateKeyData;
use passkeys::sql::{DbError, SqlValue, Statement};
use passkeys::webauthn::prf::{
    create_prf_credential, get_login_row_id_by_credential_id, get_prf_option_by_credential_id,
    list_login_credentials_with_prf, rotate_prf_keys, update_prf_keys, LoginCredentialWithPrf,
    PrfStatus,
};

fn value(json: &Json) -> serde_json::Value {
    match json {
        Json::Null => serde_json::Value::Null,
        Json::Bool(value) => serde_json::Value::from(*value),
        Json::Int(value) => serde_json::Value::from(*value),
        Json::UInt(value) => serde_json::Value::from(*value),
        Json::Text(text) => serde_json::Value::from(text.as_str()),
        Json::List(items) => serde_json::Value::Array(items.iter().map(value).collect()),
        Json::Object(members) => serde_json::Value::Object(
            members.iter().map(|(name, json)| (name.clone(), value(json))).collect(),
        ),
    }
}

fn parsed(text: &str) -> serde_json::Value {
    serde_json::from_str(text).unwrap()
}

fn shown(value: &SqlValue) -> String {
    match value {
        SqlValue::Null => "NULL".to_string(),
        SqlValue::Int(value) => format!("{value}"),
        SqlValue::Bool(value) => format!("{value}"),
        SqlValue::Text(text) => format!("'{text}'"),
    }
}

fn params(statement: &Statement) -> Vec<String> {
    statement.params.iter().map(shown).collect()
}

fn credential(supports_prf: bool, keys: [Option<&str>; 3]) -> LoginCredentialWithPrf {
    LoginCredentialWithPrf {
        id: "row".to_string(),
        credential_id: "cred".to_string(),
        name: "Phone".to_string(),
        transports: "[\"usb\",\"nfc\"]".to_string(),
        supports_prf,
        encrypted_user_key: keys[0].map(str::to_string),
        encrypted_public_key: keys[1].map(str::to_string),
        encrypted_private_key: keys[2].map(str::to_string),
    }
}

const ALL: [Option<&str>; 3] = [Some("uk"), Some("pk"), Some("sk")];

#[test]
fn status_needs_the_extension_and_all_keys() {
    assert_eq!(credential(true, ALL).prf_status(), PrfStatus::Enabled);
    assert_eq!(credential(false, ALL).prf_status(), PrfStatus::Unsupported);
    assert_eq!(credential(true, [None, Some("pk"), Some("sk")]).prf_status(), PrfStatus::Supported);
    assert_eq!(credential(true, [Some("uk"), None, Some("sk")]).prf_status(), PrfStatus::Supported);
    assert_eq!(credential(true, [Some("uk"), Some("pk"), None]).prf_status(), PrfStatus::Supported);
    assert_eq!(credential(false, [None; 3]).prf_status(), PrfStatus::Unsupported);
    let numbers = [PrfStatus::Enabled, PrfStatus::Supported, PrfStatus::Unsupported];
    assert_eq!(numbers.map(PrfStatus::as_i64), [0, 1, 2]);
}

#[test]
fn an_unlock_option_is_there_only_where_enabled() {
    let option = credential(true, ALL).to_prf_option().unwrap();
    assert_eq!(
        value(&option),
        parsed(
            r#"{"encryptedPrivateKey":"sk","encryptedUserKey":"uk","credentialId":"cred","transports":["usb","nfc"]}"#
        )
    );
    assert!(credential(false, ALL).to_prf_option().is_none());
    assert!(credential(true, [None, Some("pk"), Some("sk")]).to_prf_option().is_none());
}

#[test]
fn transports_that_are_no_list_count_as_none() {
    for transports in ["", "null", "{}", "[1]", "[\"usb\"", "[]"] {
        let mut credential = credential(true, ALL);
        credential.transports = transports.to_string();
        let option = value(&credential.to_prf_option().unwrap());
        assert_eq!(option["transports"], parsed("[]"), "{transports}");
    }
    let option = credential(true, ALL).prf_option_with(&vec!["x".to_string()]).unwrap();
    assert_eq!(value(&option)["transports"], parsed(r#"["x"]"#));
}

#[test]
fn a_passkey_is_listed_with_its_status() {
    assert_eq!(
        value(&credential(true, [None, Some("pk"), None]).to_response_json()),
        parsed(
            r#"{"id":"row","name":"Phone","prfStatus":1,"encryptedUserKey":null,"encryptedPublicKey":"pk","object":"webAuthnCredential"}"#
        )
    );
}

#[test]
fn keys_of_a_new_passkey_are_kept() {
    let none = Vec::new();
    match create_prf_credential("row", true, Some("uk"), None, Some("sk"), 9, &none, 0) {
        Err(Stop::Ask(Action::Execute { statement })) => {
            assert_eq!(
                statement.sql,
                "INSERT INTO webauthn_prf_credentials (credential_row_id, supports_prf, encrypted_user_key, encrypted_public_key, encrypted_private_key, updated_at) VALUES (?1, ?2, ?3, ?4, ?5, ?6)"
            );
            assert_eq!(params(&statement), vec!["'row'", "true", "'uk'", "NULL", "'sk'", "9"]);
        }
        other => panic!("{other:?}"),
    }
    let replies = vec![Reply::Executed(Ok(None))];
    assert!(matches!(
        create_prf_credential("row", true, None, None, None, 9, &replies, 0),
        Ok(((), 1))
    ));
}

#[test]
fn keys_of_a_passkey_are_replaced() {
    match update_prf_keys("row", "uk", "pk", "sk", 9, &Vec::new(), 0) {
        Err(Stop::Ask(Action::Execute { statement })) => {
            assert_eq!(
                statement.sql,
                "UPDATE webauthn_prf_credentials SET supports_prf = 1, encrypted_user_key = ?1, encrypted_public_key = ?2, encrypted_private_key = ?3, updated_at = ?4 WHERE credential_row_id = ?5"
            );
            assert_eq!(params(&statement), vec!["'uk'", "'pk'", "'sk'", "9", "'row'"]);
        }
        other => panic!("{other:?}"),
    }
    let replies = vec![Reply::Executed(Err(DbError::Query("q".to_string())))];
    assert!(matches!(
        update_prf_keys("row", "uk", "pk", "sk", 9, &replies, 0),
        Err(Stop::Fail(AppError::Database))
    ));
}

#[test]
fn first_keys_of_a_passkey_are_inserted() {
    for changed in [Some(true), None] {
        let replies = vec![Reply::Executed(Ok(changed))];
        assert!(matches!(
            update_prf_keys("row", "uk", "pk", "sk", 9, &replies, 0),
            Ok(((), 1))
        ));
    }
    let replies = vec![Reply::Executed(Ok(Some(false)))];
    match update_prf_keys("row", "uk", "pk", "sk", 9, &replies, 0) {
        Err(Stop::Ask(Action::Execute { statement })) => {
            assert_eq!(
                statement.sql,
                "INSERT INTO webauthn_prf_credentials (credential_row_id, supports_prf, encrypted_user_key, encrypted_public_key, encrypted_private_key, updated_at) VALUES (?1, ?2, ?3, ?4, ?5, ?6)"
            );
            assert_eq!(params(&statement), vec!["'row'", "true", "'uk'", "'pk'", "'sk'", "9"]);
        }
        other => panic!("{other:?}"),
    }
    let replies = vec![Reply::Executed(Ok(Some(false))), Reply::Executed(Ok(Some(true)))];
    assert!(matches!(update_prf_keys("row", "uk", "pk", "sk", 9, &replies, 0), Ok(((), 2))));
    let failed = Reply::Executed(Err(DbError::Query("q".to_string())));
    let replies = vec![Reply::Executed(Ok(Some(false))), failed];
    assert!(matches!(
        update_prf_keys("row", "uk", "pk", "sk", 9, &replies, 0),
        Err(Stop::Fail(AppError::Database))
    ));
}

fn rotation(id: &str) -> WebAuthnRotateKeyData {
    WebAuthnRotateKeyData {
        id: id.to_string(),
        encrypted_user_key: format!("uk-{id}"),
        encrypted_public_key: format!("pk-{id}"),
    }
}

#[test]
fn rotation_is_one_batch_in_order() {
    let updates = vec![rotation("a"), rotation("b")];
    match rotate_prf_keys(&updates, 9, &Vec::new(), 0) {
        Err(Stop::Ask(Action::ExecuteAll { statements })) => {
            assert_eq!(statements.len(), 2);
            for (statement, id) in statements.iter().zip(["a", "b"]) {
                assert_eq!(
                    statement.sql,
                    "UPDATE webauthn_prf_credentials SET encrypted_user_key = ?1, encrypted_public_key = ?2, updated_at = ?3 WHERE credential_row_id = ?4"
                );
                assert_eq!(
                    params(statement),
                    vec![format!("'uk-{id}'"), format!("'pk-{id}'"), "9".to_string(), format!("'{id}'")]
                );
            }
        }
        other => panic!("{other:?}"),
    }
    match rotate_prf_keys(&Vec::new(), 9, &Vec::new(), 0) {
        Err(Stop::Ask(Action::ExecuteAll { statements })) => assert!(statements.is_empty()),
        other => panic!("{other:?}"),
    }
    let bind = DbError::Bind(AppError::Internal, "b".to_string());
    let replies = vec![Reply::Executed(Err(bind))];
    assert!(matches!(
        rotate_prf_keys(&updates, 9, &replies, 0),
        Err(Stop::Fail(AppError::Database))
    ));
}

const JOINED: &str = "SELECT c.id, c.credential_id, c.name, c.transports, COALESCE(p.supports_prf, 0) AS supports_prf, p.encrypted_user_key, p.encrypted_public_key, p.encrypted_private_key FROM webauthn_credentials c LEFT JOIN webauthn_prf_credentials p ON c.id = p.credential_row_id";

#[test]
fn login_passkeys_are_listed_oldest_first() {
    match list_login_credentials_with_prf("u", &Vec::new(), 0) {
        Err(Stop::Ask(Action::Fetch { statement, rows })) => {
            assert_eq!(rows, Rows::LoginCredentials);
            assert_eq!(
                statement.sql,
                format!("{JOINED} WHERE c.user_id = ?1 AND c.usage = 'login' ORDER BY c.created_at ASC")
            );
            assert_eq!(params(&statement), vec!["'u'"]);
        }
        other => panic!("{other:?}"),
    }
}

#[test]
fn row_ids_are_found_by_credential_id() {
    match get_login_row_id_by_credential_id("c", &Vec::new(), 0) {
        Err(Stop::Ask(Action::Fetch { statement, rows })) => {
            assert_eq!(rows, Rows::LoginRowId);
            assert_eq!(
                statement.sql,
                "SELECT id FROM webauthn_credentials WHERE credential_id = ?1 AND usage = 'login'"
            );
            assert_eq!(params(&statement), vec!["'c'"]);
        }
        other => panic!("{other:?}"),
    }
    let replies = vec![Reply::LoginRowId(Ok(Some("r".to_string())))];
    let (id, _) = get_login_row_id_by_credential_id("c", &replies, 0).unwrap();
    assert_eq!(id.as_deref(), Some("r"));
}

#[test]
fn an_unlock_option_is_found_by_credential_id() {
    match get_prf_option_by_credential_id("c", &Vec::new(), 0) {
        Err(Stop::Ask(Action::Fetch { statement, rows })) => {
            assert_eq!(rows, Rows::LoginCredential);
            assert_eq!(
                statement.sql,
                format!("{JOINED} WHERE c.credential_id = ?1 AND c.usage = 'login'")
            );
            assert_eq!(params(&statement), vec!["'c'"]);
        }
        other => panic!("{other:?}"),
    }
    let replies = vec![Reply::LoginCredential(Ok(Some(credential(true, ALL))))];
    let (option, _) = get_prf_option_by_credential_id("c", &replies, 0).unwrap();
    assert_eq!(value(&option.unwrap())["credentialId"], parsed("\"cred\""));
    let replies = vec![Reply::LoginCredential(Ok(Some(credential(false, ALL))))];
    assert!(get_prf_option_by_credential_id("c", &replies, 0).unwrap().0.is_none());
    let replies = vec![Reply::LoginCredential(Ok(None))];
    assert!(get_prf_option_by_credential_id("c", &replies, 0).unwrap().0.is_none());
    let replies = vec![Reply::LoginCredential(Err(DbError::Row("r".to_string())))];
    assert!(matches!(
        get_prf_option_by_credential_id("c", &replies, 0),
        Err(Stop::Fail(AppError::Database))
    ));
}
