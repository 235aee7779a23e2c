use passkeys::error::AppError;
use passkeys::flow::{Action, Reply, Rows, Stop};
use passkeys::sql::{DbError, SqlValue, Statement};
use passkeys::types::StoredPasskey;
use passkeys::webauthn::store::{
    delete_login_credential, delete_twofactor_credential_by_provider_id,
    list_twofactor_credentials, stored_passkeys, twofactor_provider_id_exists, CredentialUsage,
    D1PasskeyStore, NewPasskey, StoreCall, StoreMode, WebauthnCredentialRow, CREDENTIAL_COLUMNS,
};

const COLUMNS: &str = "id, user_id, usage, provider_id, name, credential_id, public_key, counter, aaguid, transports, backup_eligible, backup_state, created_at, last_used_at";

const AAGUID: &str = "ea9b8d66-4d01-1d21-3ce4-b6b48cb575d4";

fn shown(value: &SqlValue) -> String {
    match value {
        SqlValue::Null => "NULL".to_string(),
        SqlValue::Int(value) => format!("{value}"),
        SqlValue::Bool(value) => format!("{value}"),
        SqlValue::Text(text) => format!("'{text}'"),
    }
}

fn params(statement: &Statement) -> Vec<String> {
    statement.params.iter().map(shown).collect()
}

fn placeholders(sql: &str) -> usize {
    (1..=20).filter(|n| sql.contains(&format!("?{n}"))).count()
}

fn passkey(name: &str) -> NewPasskey {
    NewPasskey {
        user_id: "u1".to_string(),
        cred_id: "c1".to_string(),
        public_key: "pk".to_string(),
        name: name.to_string(),
        counter: 3,
        created_at: 99,
    }
}

fn row(id: &str) -> WebauthnCredentialRow {
    WebauthnCredentialRow {
        id: id.to_string(),
        user_id: "u1".to_string(),
        usage: "login".to_string(),
        provider_id: None,
        name: "key".to_string(),
        credential_id: format!("cred-{id}"),
        public_key: "pk".to_string(),
        counter: 5,
        aaguid: None,
        transports: "[]".to_string(),
        backup_eligible: 0,
        backup_state: 0,
        created_at: 10,
        last_used_at: 20,
    }
}

#[test]
fn usages_have_their_words_and_demands() {
    assert_eq!(CredentialUsage::TwoFactor.as_str(), "twofactor");
    assert_eq!(CredentialUsage::Login.as_str(), "login");
    let login = CredentialUsage::Login.authenticator_selection();
    assert_eq!(login.authenticator_attachment, None);
    assert_eq!(login.require_resident_key, Some(true));
    assert_eq!(login.resident_key.as_deref(), Some("required"));
    assert_eq!(login.user_verification.as_deref(), Some("required"));
    let second = CredentialUsage::TwoFactor.authenticator_selection();
    assert_eq!(second.authenticator_attachment, None);
    assert_eq!(second.require_resident_key, Some(false));
    assert_eq!(second.resident_key, None);
    assert_eq!(second.user_verification.as_deref(), Some("discouraged"));
}

#[test]
fn stores_know_their_usage_and_database() {
    let db = 5u8;
    assert_eq!(D1PasskeyStore::for_login(&db).usage(), CredentialUsage::Login);
    assert_eq!(D1PasskeyStore::for_twofactor(&db).usage(), CredentialUsage::TwoFactor);
    let login = D1PasskeyStore::for_login_registration(&db, "r".to_string(), "n".to_string());
    assert_eq!(login.usage(), CredentialUsage::Login);
    let second = D1PasskeyStore::for_twofactor_registration(&db, 4, "n".to_string());
    assert_eq!(second.usage(), CredentialUsage::TwoFactor);
    assert_eq!(*D1PasskeyStore::for_mode(&db, StoreMode::TwoFactor).db(), 5);
    assert_eq!(StoreMode::Login.usage(), CredentialUsage::Login);
}

#[test]
fn state_ids_are_scoped_by_usage() {
    let db = ();
    assert_eq!(D1PasskeyStore::for_login(&db).scoped_state_id("reg:u1"), "login:reg:u1");
    assert_eq!(D1PasskeyStore::for_twofactor(&db).scoped_state_id("reg:u1"), "twofactor:reg:u1");
    assert_eq!(D1PasskeyStore::for_twofactor(&db).scoped_state_id(""), "twofactor:");
}

#[test]
fn a_login_passkey_is_kept_in_its_row() {
    let db = ();
    let store =
        D1PasskeyStore::for_login_registration(&db, "row-1".to_string(), "My key".to_string());
    let insert = store.create_passkey(&passkey(&format!("My key-{AAGUID}"))).unwrap();
    assert_eq!(
        insert.sql,
        format!(
            "INSERT INTO webauthn_credentials ({COLUMNS}) VALUES (?1, ?2, ?3, ?4, ?5, ?6, ?7, ?8, ?9, ?10, ?11, ?12, ?13, ?14)"
        )
    );
    assert_eq!(CREDENTIAL_COLUMNS, COLUMNS);
    let aaguid = format!("'{AAGUID}'");
    assert_eq!(
        params(&insert),
        vec![
            "'row-1'", "'u1'", "'login'", "NULL", "'My key'", "'c1'", "'pk'", "3", aaguid.as_str(),
            "'[]'", "0", "0", "99", "99",
        ]
    );
}

#[test]
fn a_security_key_is_kept_in_a_fresh_row() {
    let db = ();
    let store = D1PasskeyStore::for_twofactor_registration(&db, -7, "K".to_string());
    let first = store.create_passkey(&passkey("K-nonsense")).unwrap();
    let second = store.create_passkey(&passkey("K-nonsense")).unwrap();
    assert_ne!(params(&first)[0], params(&second)[0]);
    assert_eq!(params(&first)[0].len(), 38);
    assert_eq!(
        params(&first)[1..],
        vec![
            "'u1'", "'twofactor'", "-7", "'K'", "'c1'", "'pk'", "3", "NULL", "'[]'", "0", "0", "99",
            "99",
        ]
    );
    let chosen = store.create_passkey_in_row("r".to_string(), &passkey("K")).unwrap();
    assert_eq!(params(&chosen)[0], "'r'");
}

#[test]
fn the_authenticator_model_is_read_in_every_way_of_writing_it() {
    let db = ();
    let store = D1PasskeyStore::for_login_registration(&db, "r".to_string(), "a-b".to_string());
    let compact = AAGUID.replace('-', "");
    let upper = AAGUID.to_uppercase();
    for suffix in [
        AAGUID.to_string(),
        compact.clone(),
        upper.clone(),
        format!("{{{AAGUID}}}"),
        format!("urn:uuid:{AAGUID}"),
        format!("URN:UUID:{upper}"),
    ] {
        let insert = store.create_passkey(&passkey(&format!("a-b-{suffix}"))).unwrap();
        assert_eq!(params(&insert)[8], format!("'{AAGUID}'"), "{suffix}");
        assert_eq!(params(&insert)[4], "'a-b'");
    }
    for name in [
        "a-b".to_string(),
        "a-b-".to_string(),
        format!("other-{AAGUID}"),
        format!("a-b-{compact}0"),
        format!("a-b-{{{compact}}}"),
        format!("a-b-urn:uuid:{compact}"),
    ] {
        let insert = store.create_passkey(&passkey(&name)).unwrap();
        assert_eq!(params(&insert)[8], "NULL", "{name}");
    }
}

#[test]
fn only_a_registration_keeps_credentials() {
    let db = ();
    let error = D1PasskeyStore::for_login(&db).create_passkey(&passkey("n")).unwrap_err();
    assert_eq!(error.message, "create_passkey requires a registration-mode store");
    let error = D1PasskeyStore::for_twofactor(&db).create_passkey(&passkey("n")).unwrap_err();
    assert_eq!(error.message, "create_passkey requires a registration-mode store");
}

#[test]
fn credentials_are_read_by_usage() {
    let db = ();
    let get = D1PasskeyStore::for_login(&db).get_passkey("c");
    assert_eq!(
        get.sql,
        format!("SELECT {COLUMNS} FROM webauthn_credentials WHERE credential_id = ?1 AND usage = ?2")
    );
    assert_eq!(params(&get), vec!["'c'", "'login'"]);
    let list = D1PasskeyStore::for_twofactor(&db).list_passkeys("u");
    assert_eq!(
        list.sql,
        format!(
            "SELECT {COLUMNS} FROM webauthn_credentials WHERE user_id = ?1 AND usage = ?2 ORDER BY created_at ASC"
        )
    );
    assert_eq!(params(&list), vec!["'u'", "'twofactor'"]);
}

#[test]
fn credentials_are_changed_and_deleted_by_their_id() {
    let db = ();
    let store = D1PasskeyStore::for_login(&db);
    let delete = store.delete_passkey("u", "c");
    assert_eq!(
        delete.sql,
        "DELETE FROM webauthn_credentials WHERE credential_id = ?1 AND user_id = ?2"
    );
    assert_eq!(params(&delete), vec!["'c'", "'u'"]);
    let counter = store.update_passkey_counter("c", 8, 77);
    assert_eq!(
        counter.sql,
        "UPDATE webauthn_credentials SET counter = ?1, last_used_at = ?2 WHERE credential_id = ?3"
    );
    assert_eq!(params(&counter), vec!["8", "77", "'c'"]);
    let name = store.update_passkey_name("c", "new");
    assert_eq!(name.sql, "UPDATE webauthn_credentials SET name = ?1 WHERE credential_id = ?2");
    assert_eq!(params(&name), vec!["'new'", "'c'"]);
}

#[test]
fn states_are_kept_read_and_deleted_under_their_scoped_id() {
    let db = ();
    let store = D1PasskeyStore::for_login(&db);
    let (insert, purge) = store.save_state("s", "{}", 50, 40);
    assert_eq!(
        insert.sql,
        "INSERT OR REPLACE INTO webauthn_states (id, state_json, expires_at, created_at) VALUES (?1, ?2, ?3, ?4)"
    );
    assert_eq!(params(&insert), vec!["'login:s'", "'{}'", "50", "40"]);
    assert_eq!(purge.sql, "DELETE FROM webauthn_states WHERE expires_at <= ?1");
    assert_eq!(params(&purge), vec!["40"]);
    let get = store.get_state("s", 41);
    assert_eq!(
        get.sql,
        "SELECT id, state_json, expires_at FROM webauthn_states WHERE id = ?1 AND expires_at > ?2"
    );
    assert_eq!(params(&get), vec!["'login:s'", "41"]);
    let delete = store.delete_state("s");
    assert_eq!(delete.sql, "DELETE FROM webauthn_states WHERE id = ?1");
    assert_eq!(params(&delete), vec!["'login:s'"]);
}

#[test]
fn every_statement_has_a_value_for_every_placeholder() {
    let db = ();
    let store = D1PasskeyStore::for_login_registration(&db, "r".to_string(), "n".to_string());
    let (insert, purge) = store.save_state("s", "{}", 1, 2);
    for statement in [
        store.create_passkey(&passkey("n")).unwrap(),
        store.get_passkey("c"),
        store.list_passkeys("u"),
        store.delete_passkey("u", "c"),
        store.update_passkey_counter("c", 1, 2),
        store.update_passkey_name("c", "n"),
        insert,
        purge,
        store.get_state("s", 1),
        store.delete_state("s"),
    ] {
        assert_eq!(placeholders(&statement.sql), statement.params.len(), "{}", statement.sql);
    }
}

#[test]
fn store_errors_name_the_call() {
    let bind: Result<(), DbError> = Err(DbError::Bind(AppError::Internal, "b".to_string()));
    assert_eq!(StoreCall::GetState.finish(bind).unwrap_err().message, "bind error: b");
    let row: Result<(), DbError> = Err(DbError::Row("r".to_string()));
    assert_eq!(StoreCall::GetPasskey.finish(row).unwrap_err().message, "deser: r");
    for (call, name) in [
        (StoreCall::CreatePasskey, "create_passkey: q"),
        (StoreCall::GetPasskey, "get_passkey: q"),
        (StoreCall::ListPasskeys, "list_passkeys: q"),
        (StoreCall::DeletePasskey, "delete_passkey: q"),
        (StoreCall::UpdateCounter, "update_counter: q"),
        (StoreCall::UpdateName, "update_name: q"),
        (StoreCall::SaveState, "save_state batch: q"),
        (StoreCall::GetState, "get_state: q"),
        (StoreCall::DeleteState, "delete_state: q"),
    ] {
        let query: Result<(), DbError> = Err(DbError::Query("q".to_string()));
        assert_eq!(call.finish(query).unwrap_err().message, name);
    }
    assert_eq!(StoreCall::GetState.finish(Ok(3)).unwrap(), 3);
}

#[test]
fn rows_are_read_as_passkeys_in_their_order() {
    let one = StoredPasskey::from(row("a"));
    assert_eq!(one.user_id, "u1");
    assert_eq!(one.cred_id, "cred-a");
    assert_eq!(one.public_key, "pk");
    assert_eq!(one.name, "key");
    assert_eq!((one.counter, one.created_at, one.last_used_at), (5, 10, 20));
    let all = stored_passkeys(vec![row("a"), row("b")]);
    let ids: Vec<String> = all.into_iter().map(|passkey| passkey.cred_id).collect();
    assert_eq!(ids, vec!["cred-a", "cred-b"]);
}

#[test]
fn security_keys_of_a_user_are_listed_by_number() {
    match list_twofactor_credentials("u", &Vec::new(), 0) {
        Err(Stop::Ask(Action::Fetch { statement, rows })) => {
            assert_eq!(rows, Rows::SecurityKeys);
            assert_eq!(
                statement.sql,
                format!(
                    "SELECT {COLUMNS} FROM webauthn_credentials WHERE user_id = ?1 AND usage = 'twofactor' ORDER BY provider_id ASC"
                )
            );
            assert_eq!(params(&statement), vec!["'u'"]);
        }
        other => panic!("{other:?}"),
    }
    let replies = vec![Reply::SecurityKeys(Ok(vec![row("a"), row("b")]))];
    let (keys, at) = list_twofactor_credentials("u", &replies, 0).unwrap();
    assert_eq!((keys.len(), at), (2, 1));
    let replies = vec![Reply::SecurityKeys(Err(DbError::Row("r".to_string())))];
    assert!(matches!(
        list_twofactor_credentials("u", &replies, 0),
        Err(Stop::Fail(AppError::Database))
    ));
}

#[test]
fn a_number_is_taken_where_a_row_is_found() {
    match twofactor_provider_id_exists("u", 3, &Vec::new(), 0) {
        Err(Stop::Ask(Action::Fetch { statement, rows })) => {
            assert_eq!(rows, Rows::Presence);
            assert_eq!(
                statement.sql,
                "SELECT 1 AS present FROM webauthn_credentials WHERE user_id = ?1 AND usage = 'twofactor' AND provider_id = ?2 LIMIT 1"
            );
            assert_eq!(params(&statement), vec!["'u'", "3"]);
        }
        other => panic!("{other:?}"),
    }
    let replies = vec![Reply::Presence(Ok(true)), Reply::Presence(Ok(false))];
    assert!(matches!(twofactor_provider_id_exists("u", 3, &replies, 0), Ok((true, 1))));
    assert!(matches!(twofactor_provider_id_exists("u", 3, &replies, 1), Ok((false, 2))));
}

#[test]
fn a_credential_was_deleted_only_where_the_database_says_so() {
    match delete_twofactor_credential_by_provider_id("u", 3, &Vec::new(), 0) {
        Err(Stop::Ask(Action::Execute { statement })) => {
            assert_eq!(
                statement.sql,
                "DELETE FROM webauthn_credentials WHERE user_id = ?1 AND usage = 'twofactor' AND provider_id = ?2"
            );
            assert_eq!(params(&statement), vec!["'u'", "3"]);
        }
        other => panic!("{other:?}"),
    }
    match delete_login_credential("u", "r", &Vec::new(), 0) {
        Err(Stop::Ask(Action::Execute { statement })) => {
            assert_eq!(
                statement.sql,
                "DELETE FROM webauthn_credentials WHERE id = ?1 AND user_id = ?2 AND usage = 'login'"
            );
            assert_eq!(params(&statement), vec!["'r'", "'u'"]);
        }
        other => panic!("{other:?}"),
    }
    for (changed, deleted) in [(Some(true), true), (Some(false), false), (None, false)] {
        let replies = vec![Reply::Executed(Ok(changed))];
        let (one, _) = delete_twofactor_credential_by_provider_id("u", 3, &replies, 0).unwrap();
        let (other, _) = delete_login_credential("u", "r", &replies, 0).unwrap();
        assert_eq!((one, other), (deleted, deleted));
    }
    let bind = DbError::Bind(AppError::Internal, "b".to_string());
    let replies = vec![Reply::Executed(Err(bind))];
    assert!(matches!(
        delete_login_credential("u", "r", &replies, 0),
        Err(Stop::Fail(AppError::Internal))
    ));
}
