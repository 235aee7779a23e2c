//! Login passkeys that can also unlock the vault: those with the pseudo-random function (PRF)
//! extension.
use vstd::prelude::*;
use crate::flow::{
    chain, execute, execute_all, execute_all_script, execute_script, fetch_login_credential,
    fetch_login_credential_script, fetch_login_credentials, fetch_login_credentials_script,
    fetch_login_row_id, fetch_login_row_id_script, progress, Progress, ProgressModel, Reply,
    ReplyModel,
};
use crate::json::{
    json_string_list, law_set_then_get, parse_string_list, Json, JsonModel,
};
use crate::models::{WebAuthnRotateKeyData, WebAuthnRotateKeyDataModel};
use crate::sql::{statement, SqlValue, SqlValueModel, Statement, StatementModel};

verus! {

/// Whether a passkey can unlock the vault.
#[derive(Debug, Clone, Copy, PartialEq, Eq, Structural)]
pub enum PrfStatus {
    /// It can, and the keys for it are stored.
    Enabled,
    /// Its authenticator has the extension, and keys are missing.
    Supported,
    /// Its authenticator does not have the extension.
    Unsupported,
}

impl PrfStatus {
    /// The number that clients know.
    pub open spec fn number(self) -> int {
        match self {
            PrfStatus::Enabled => 0,
            PrfStatus::Supported => 1,
            PrfStatus::Unsupported => 2,
        }
    }

    /// The number that clients know.
    pub fn as_i64(self) -> (number: i64)
        ensures
            number == self.number(),
    {
        match self {
            PrfStatus::Enabled => 0,
            PrfStatus::Supported => 1,
            PrfStatus::Unsupported => 2,
        }
    }
}

/// A login passkey together with its PRF keys.
#[derive(Debug)]
pub struct LoginCredentialWithPrf {
    pub id: String,
    pub credential_id: String,
    pub name: String,
    /// A JSON list of strings.
    pub transports: String,
    pub supports_prf: bool,
    pub encrypted_user_key: Option<String>,
    pub encrypted_public_key: Option<String>,
    pub encrypted_private_key: Option<String>,
}

/// Model of [`LoginCredentialWithPrf`].
pub struct LoginCredentialWithPrfModel {
    pub id: Seq<char>,
    pub credential_id: Seq<char>,
    pub name: Seq<char>,
    pub transports: Seq<char>,
    pub supports_prf: bool,
    pub encrypted_user_key: Option<Seq<char>>,
    pub encrypted_public_key: Option<Seq<char>>,
    pub encrypted_private_key: Option<Seq<char>>,
}

impl DeepView for LoginCredentialWithPrf {
    type V = LoginCredentialWithPrfModel;

    open spec fn deep_view(&self) -> LoginCredentialWithPrfModel {
        LoginCredentialWithPrfModel {
            id: self.id@,
            credential_id: self.credential_id@,
            name: self.name@,
            transports: self.transports@,
            supports_prf: self.supports_prf,
            encrypted_user_key: self.encrypted_user_key.deep_view(),
            encrypted_public_key: self.encrypted_public_key.deep_view(),
            encrypted_private_key: self.encrypted_private_key.deep_view(),
        }
    }
}

/// The transports that a JSON text lists; none where it is not a list of strings.
pub open spec fn listed(transports: Seq<char>) -> Seq<Seq<char>> {
    match json_string_list(transports) {
        Some(list) => list,
        None => Seq::empty(),
    }
}

impl LoginCredentialWithPrfModel {
    /// Whether the passkey can unlock the vault: all three keys and the extension make it so.
    pub open spec fn status(self) -> PrfStatus {
        if !self.supports_prf {
            PrfStatus::Unsupported
        } else if self.encrypted_user_key is Some && self.encrypted_public_key is Some
            && self.encrypted_private_key is Some {
            PrfStatus::Enabled
        } else {
            PrfStatus::Supported
        }
    }

    /// What a client needs to unlock the vault with the passkey, given its transports.
    pub open spec fn option_with(self, transports: Seq<Seq<char>>) -> Option<JsonModel> {
        if self.status() == PrfStatus::Enabled {
            Some(
                JsonModel::object().with(
                    "encryptedPrivateKey"@,
                    JsonModel::optional_text(self.encrypted_private_key),
                ).with(
                    "encryptedUserKey"@,
                    JsonModel::optional_text(self.encrypted_user_key),
                ).with("credentialId"@, JsonModel::Text(self.credential_id)).with(
                    "transports"@,
                    JsonModel::texts(transports),
                ),
            )
        } else {
            None
        }
    }

    /// What a client needs to unlock the vault with the passkey.
    pub open spec fn prf_option(self) -> Option<JsonModel> {
        self.option_with(listed(self.transports))
    }

    /// The passkey in a list of passkeys.
    pub open spec fn response(self) -> JsonModel {
        JsonModel::object().with("id"@, JsonModel::Text(self.id)).with(
            "name"@,
            JsonModel::Text(self.name),
        ).with("prfStatus"@, JsonModel::Number(self.status().number())).with(
            "encryptedUserKey"@,
            JsonModel::optional_text(self.encrypted_user_key),
        ).with("encryptedPublicKey"@, JsonModel::optional_text(self.encrypted_public_key)).with(
            "object"@,
            JsonModel::Text("webAuthnCredential"@),
        )
    }
}

impl LoginCredentialWithPrf {
    /// Whether the passkey can unlock the vault.
    pub fn prf_status(&self) -> (status: PrfStatus)
        ensures
            status == self.deep_view().status(),
    {
        if !self.supports_prf {
            return PrfStatus::Unsupported;
        }
        if self.encrypted_user_key.is_some() && self.encrypted_public_key.is_some()
            && self.encrypted_private_key.is_some() {
            PrfStatus::Enabled
        } else {
            PrfStatus::Supported
        }
    }

    /// What a client needs to unlock the vault with the passkey, given its transports: `Some` only
    /// where PRF is enabled.
    pub fn prf_option_with(&self, transports: &Vec<String>) -> (option: Option<Json>)
        ensures
            option.deep_view() == self.deep_view().option_with(transports.deep_view()),
    {
        if self.prf_status() != PrfStatus::Enabled {
            return None;
        }
        let mut option = Json::object();
        option.set("encryptedPrivateKey", Json::optional_text(&self.encrypted_private_key));
        option.set("encryptedUserKey", Json::optional_text(&self.encrypted_user_key));
        option.set("credentialId", Json::text(self.credential_id.as_str()));
        option.set("transports", Json::texts(transports));
        Some(option)
    }

    /// What a client needs to unlock the vault with the passkey: `Some` only where PRF is enabled.
    /// Transports that are not a list of strings count as none.
    pub fn to_prf_option(&self) -> (option: Option<Json>)
        ensures
            option.deep_view() == self.deep_view().prf_option(),
    {
        let transports = match parse_string_list(self.transports.as_str()) {
            Some(list) => list,
            None => Vec::new(),
        };
        assert(transports.deep_view() =~= listed(self.transports@));
        self.prf_option_with(&transports)
    }

    /// The passkey in a list of passkeys.
    pub fn to_response_json(&self) -> (response: Json)
        ensures
            response.deep_view() == self.deep_view().response(),
    {
        let mut response = Json::object();
        response.set("id", Json::text(self.id.as_str()));
        response.set("name", Json::text(self.name.as_str()));
        response.set("prfStatus", Json::Int(self.prf_status().as_i64()));
        response.set("encryptedUserKey", Json::optional_text(&self.encrypted_user_key));
        response.set("encryptedPublicKey", Json::optional_text(&self.encrypted_public_key));
        response.set("object", Json::text("webAuthnCredential"));
        response
    }
}

/// The statement that keeps the PRF keys of a new login passkey.
pub open spec fn create_prf_credential_statement(
    credential_row_id: Seq<char>,
    supports_prf: bool,
    encrypted_user_key: Option<Seq<char>>,
    encrypted_public_key: Option<Seq<char>>,
    encrypted_private_key: Option<Seq<char>>,
    now_ms: i64,
) -> StatementModel {
    StatementModel {
        sql: "INSERT INTO webauthn_prf_credentials \
         (credential_row_id, supports_prf, encrypted_user_key, encrypted_public_key, \
         encrypted_private_key, updated_at) \
         VALUES (?1, ?2, ?3, ?4, ?5, ?6)"@,
        params: seq![
            SqlValueModel::Text(credential_row_id),
            SqlValueModel::Bool(supports_prf),
            SqlValueModel::optional_text(encrypted_user_key),
            SqlValueModel::optional_text(encrypted_public_key),
            SqlValueModel::optional_text(encrypted_private_key),
            SqlValueModel::Int(now_ms as int),
        ],
    }
}

/// Keeps the PRF keys of a new login passkey.
pub open spec fn create_prf_credential_script(
    credential_row_id: Seq<char>,
    supports_prf: bool,
    encrypted_user_key: Option<Seq<char>>,
    encrypted_public_key: Option<Seq<char>>,
    encrypted_private_key: Option<Seq<char>>,
    now_ms: i64,
    replies: Seq<ReplyModel>,
    at: int,
) -> ProgressModel<()> {
    chain(
        execute_script(
            create_prf_credential_statement(
                credential_row_id,
                supports_prf,
                encrypted_user_key,
                encrypted_public_key,
                encrypted_private_key,
                now_ms,
            ),
            replies,
            at,
        ),
        |changed: Option<bool>, at: int| Ok(((), at)),
    )
}

/// Keeps the PRF keys of a new login passkey.
pub fn create_prf_credential(
    credential_row_id: &str,
    supports_prf: bool,
    encrypted_user_key: Option<&str>,
    encrypted_public_key: Option<&str>,
    encrypted_private_key: Option<&str>,
    now_ms: i64,
    replies: &Vec<Reply>,
    at: usize,
) -> (result: Progress<()>)
    ensures
        progress(result) == create_prf_credential_script(
            credential_row_id@,
            supports_prf,
            encrypted_user_key.deep_view(),
            encrypted_public_key.deep_view(),
            encrypted_private_key.deep_view(),
            now_ms,
            replies.deep_view(),
            at as int,
        ),
{
    let params: Vec<SqlValue> = vec![
        SqlValue::text(credential_row_id),
        SqlValue::Bool(supports_prf),
        SqlValue::optional_str(encrypted_user_key),
        SqlValue::optional_str(encrypted_public_key),
        SqlValue::optional_str(encrypted_private_key),
        SqlValue::Int(now_ms),
    ];
    assert(
        params.deep_view() =~= create_prf_credential_statement(
            credential_row_id@,
            supports_prf,
            encrypted_user_key.deep_view(),
            encrypted_public_key.deep_view(),
            encrypted_private_key.deep_view(),
            now_ms,
        ).params
    );
    let query = statement(
        "INSERT INTO webauthn_prf_credentials \
         (credential_row_id, supports_prf, encrypted_user_key, encrypted_public_key, \
         encrypted_private_key, updated_at) \
         VALUES (?1, ?2, ?3, ?4, ?5, ?6)",
        params,
    );
    let (_changed, at) = execute(query, replies, at)?;
    Ok(((), at))
}

/// The statement that replaces all PRF keys of a login passkey, which then has the extension.
pub open spec fn update_prf_keys_statement(
    credential_row_id: Seq<char>,
    encrypted_user_key: Seq<char>,
    encrypted_public_key: Seq<char>,
    encrypted_private_key: Seq<char>,
    now_ms: i64,
) -> StatementModel {
    StatementModel {
        sql: "UPDATE webauthn_prf_credentials \
         SET supports_prf = 1, encrypted_user_key = ?1, encrypted_public_key = ?2, \
             encrypted_private_key = ?3, updated_at = ?4 \
         WHERE credential_row_id = ?5"@,
        params: seq![
            SqlValueModel::Text(encrypted_user_key),
            SqlValueModel::Text(encrypted_public_key),
            SqlValueModel::Text(encrypted_private_key),
            SqlValueModel::Int(now_ms as int),
            SqlValueModel::Text(credential_row_id),
        ],
    }
}

/// Stores all PRF keys of a login passkey, after it has shown that it has the extension: over those
/// there are, or in a new record where the database says that there was none to change.
pub open spec fn update_prf_keys_script(
    credential_row_id: Seq<char>,
    encrypted_user_key: Seq<char>,
    encrypted_public_key: Seq<char>,
    encrypted_private_key: Seq<char>,
    now_ms: i64,
    replies: Seq<ReplyModel>,
    at: int,
) -> ProgressModel<()> {
    chain(
        execute_script(
            update_prf_keys_statement(
                credential_row_id,
                encrypted_user_key,
                encrypted_public_key,
                encrypted_private_key,
                now_ms,
            ),
            replies,
            at,
        ),
        |changed: Option<bool>, at: int|
            if changed == Some(false) {
                create_prf_credential_script(
                    credential_row_id,
                    true,
                    Some(encrypted_user_key),
                    Some(encrypted_public_key),
                    Some(encrypted_private_key),
                    now_ms,
                    replies,
                    at,
                )
            } else {
                Ok(((), at))
            },
    )
}

/// Stores all PRF keys of a login passkey, after it has shown that it has the extension.
///
/// The keys replace those there are. Where the database says that nothing changed, the passkey has
/// no record of keys yet, and gets one. A database that does not say whether something changed
/// counts as one that did change.
pub fn update_prf_keys(
    credential_row_id: &str,
    encrypted_user_key: &str,
    encrypted_public_key: &str,
    encrypted_private_key: &str,
    now_ms: i64,
    replies: &Vec<Reply>,
    at: usize,
) -> (result: Progress<()>)
    ensures
        progress(result) == update_prf_keys_script(
            credential_row_id@,
            encrypted_user_key@,
            encrypted_public_key@,
            encrypted_private_key@,
            now_ms,
            replies.deep_view(),
            at as int,
        ),
{
    let params: Vec<SqlValue> = vec![
        SqlValue::text(encrypted_user_key),
        SqlValue::text(encrypted_public_key),
        SqlValue::text(encrypted_private_key),
        SqlValue::Int(now_ms),
        SqlValue::text(credential_row_id),
    ];
    assert(
        params.deep_view() =~= update_prf_keys_statement(
            credential_row_id@,
            encrypted_user_key@,
            encrypted_public_key@,
            encrypted_private_key@,
            now_ms,
        ).params
    );
    let query = statement(
        "UPDATE webauthn_prf_credentials \
         SET supports_prf = 1, encrypted_user_key = ?1, encrypted_public_key = ?2, \
             encrypted_private_key = ?3, updated_at = ?4 \
         WHERE credential_row_id = ?5",
        params,
    );
    let (changed, at) = execute(query, replies, at)?;
    let missing = match changed {
        Some(value) => !value,
        None => false,
    };
    if missing {
        create_prf_credential(
            credential_row_id,
            true,
            Some(encrypted_user_key),
            Some(encrypted_public_key),
            Some(encrypted_private_key),
            now_ms,
            replies,
            at,
        )
    } else {
        Ok(((), at))
    }
}

/// The statement that replaces the user key and the public key of one login passkey.
pub open spec fn rotate_statement(data: WebAuthnRotateKeyDataModel, now_ms: i64) -> StatementModel {
    StatementModel {
        sql: "UPDATE webauthn_prf_credentials \
         SET encrypted_user_key = ?1, encrypted_public_key = ?2, updated_at = ?3 \
         WHERE credential_row_id = ?4"@,
        params: seq![
            SqlValueModel::Text(data.encrypted_user_key),
            SqlValueModel::Text(data.encrypted_public_key),
            SqlValueModel::Int(now_ms as int),
            SqlValueModel::Text(data.id),
        ],
    }
}

/// The batch that replaces keys, one statement to a passkey in their order.
pub open spec fn rotate_prf_keys_statements(
    updates: Seq<WebAuthnRotateKeyDataModel>,
    now_ms: i64,
) -> Seq<StatementModel> {
    Seq::new(updates.len(), |i: int| rotate_statement(updates[i], now_ms))
}

/// Replaces the user keys and public keys of login passkeys in one batch.
pub open spec fn rotate_prf_keys_script(
    updates: Seq<WebAuthnRotateKeyDataModel>,
    now_ms: i64,
    replies: Seq<ReplyModel>,
    at: int,
) -> ProgressModel<()> {
    chain(
        execute_all_script(rotate_prf_keys_statements(updates, now_ms), replies, at),
        |changed: Option<bool>, at: int| Ok(((), at)),
    )
}

/// Replaces the user keys and public keys of login passkeys in one batch, when the account key
/// changes. The private keys stay.
pub fn rotate_prf_keys(
    updates: &Vec<WebAuthnRotateKeyData>,
    now_ms: i64,
    replies: &Vec<Reply>,
    at: usize,
) -> (result: Progress<()>)
    ensures
        progress(result) == rotate_prf_keys_script(
            updates.deep_view(),
            now_ms,
            replies.deep_view(),
            at as int,
        ),
{
    let mut statements: Vec<Statement> = Vec::new();
    for i in 0..updates.len()
        invariant
            statements@.len() == i,
            forall|j: int|
                0 <= j < i ==> (#[trigger] statements@[j]).deep_view() == rotate_statement(
                    updates@[j].deep_view(),
                    now_ms,
                ),
    {
        let data = &updates[i];
        let params: Vec<SqlValue> = vec![
            SqlValue::text(data.encrypted_user_key.as_str()),
            SqlValue::text(data.encrypted_public_key.as_str()),
            SqlValue::Int(now_ms),
            SqlValue::text(data.id.as_str()),
        ];
        assert(params.deep_view() =~= rotate_statement(data.deep_view(), now_ms).params);
        statements.push(
            statement(
                "UPDATE webauthn_prf_credentials \
         SET encrypted_user_key = ?1, encrypted_public_key = ?2, updated_at = ?3 \
         WHERE credential_row_id = ?4",
                params,
            ),
        );
    }
    assert(statements.deep_view() =~= rotate_prf_keys_statements(updates.deep_view(), now_ms));
    let (_changed, at) = execute_all(statements, replies, at)?;
    Ok(((), at))
}

/// The query for the login passkeys of a user with their PRF keys, oldest first.
pub open spec fn list_login_credentials_with_prf_statement(
    user_id: Seq<char>,
) -> StatementModel {
    StatementModel {
        sql: "SELECT c.id, c.credential_id, c.name, c.transports, \
         COALESCE(p.supports_prf, 0) AS supports_prf, \
         p.encrypted_user_key, p.encrypted_public_key, p.encrypted_private_key \
         FROM webauthn_credentials c \
         LEFT JOIN webauthn_prf_credentials p ON c.id = p.credential_row_id \
         WHERE c.user_id = ?1 AND c.usage = 'login' \
         ORDER BY c.created_at ASC"@,
        params: seq![
            SqlValueModel::Text(user_id),
        ],
    }
}

/// The login passkeys of a user with their PRF keys, oldest first.
pub open spec fn list_login_credentials_with_prf_script(
    user_id: Seq<char>,
    replies: Seq<ReplyModel>,
    at: int,
) -> ProgressModel<Seq<LoginCredentialWithPrfModel>> {
    fetch_login_credentials_script(list_login_credentials_with_prf_statement(user_id), replies, at)
}

/// The login passkeys of a user with their PRF keys, oldest first.
pub fn list_login_credentials_with_prf<'a>(
    user_id: &str,
    replies: &'a Vec<Reply>,
    at: usize,
) -> (result: Progress<&'a Vec<LoginCredentialWithPrf>>)
    ensures
        progress(result) == list_login_credentials_with_prf_script(
            user_id@,
            replies.deep_view(),
            at as int,
        ),
{
    let params: Vec<SqlValue> = vec![
        SqlValue::text(user_id),
    ];
    assert(params.deep_view() =~= list_login_credentials_with_prf_statement(user_id@).params);
    let query = statement(
        "SELECT c.id, c.credential_id, c.name, c.transports, \
         COALESCE(p.supports_prf, 0) AS supports_prf, \
         p.encrypted_user_key, p.encrypted_public_key, p.encrypted_private_key \
         FROM webauthn_credentials c \
         LEFT JOIN webauthn_prf_credentials p ON c.id = p.credential_row_id \
         WHERE c.user_id = ?1 AND c.usage = 'login' \
         ORDER BY c.created_at ASC",
        params,
    );
    fetch_login_credentials(query, replies, at)
}

/// The query for the row id of a login passkey.
pub open spec fn get_login_row_id_by_credential_id_statement(
    credential_id: Seq<char>,
) -> StatementModel {
    StatementModel {
        sql: "SELECT id FROM webauthn_credentials WHERE credential_id = ?1 AND usage = 'login'"@,
        params: seq![
            SqlValueModel::Text(credential_id),
        ],
    }
}

/// The row id of a login passkey, by its credential id.
pub open spec fn get_login_row_id_by_credential_id_script(
    credential_id: Seq<char>,
    replies: Seq<ReplyModel>,
    at: int,
) -> ProgressModel<Option<Seq<char>>> {
    fetch_login_row_id_script(
        get_login_row_id_by_credential_id_statement(credential_id),
        replies,
        at,
    )
}

/// The row id of a login passkey, by its credential id.
pub fn get_login_row_id_by_credential_id<'a>(
    credential_id: &str,
    replies: &'a Vec<Reply>,
    at: usize,
) -> (result: Progress<&'a Option<String>>)
    ensures
        progress(result) == get_login_row_id_by_credential_id_script(
            credential_id@,
            replies.deep_view(),
            at as int,
        ),
{
    let params: Vec<SqlValue> = vec![
        SqlValue::text(credential_id),
    ];
    assert(
        params.deep_view() =~= get_login_row_id_by_credential_id_statement(credential_id@).params
    );
    let query = statement(
        "SELECT id FROM webauthn_credentials WHERE credential_id = ?1 AND usage = 'login'",
        params,
    );
    fetch_login_row_id(query, replies, at)
}

/// What a client needs to unlock the vault with the passkey that was found, if one was.
pub open spec fn unlock_option(row: Option<LoginCredentialWithPrfModel>) -> Option<JsonModel> {
    match row {
        Some(credential) => credential.prf_option(),
        None => None,
    }
}

/// The query for a login passkey with its PRF keys.
pub open spec fn get_prf_option_by_credential_id_statement(
    credential_id: Seq<char>,
) -> StatementModel {
    StatementModel {
        sql: "SELECT c.id, c.credential_id, c.name, c.transports, \
         COALESCE(p.supports_prf, 0) AS supports_prf, \
         p.encrypted_user_key, p.encrypted_public_key, p.encrypted_private_key \
         FROM webauthn_credentials c \
         LEFT JOIN webauthn_prf_credentials p ON c.id = p.credential_row_id \
         WHERE c.credential_id = ?1 AND c.usage = 'login'"@,
        params: seq![
            SqlValueModel::Text(credential_id),
        ],
    }
}

/// What a client needs to unlock the vault with a login passkey: `Some` only where the passkey
/// exists and PRF is enabled for it.
pub open spec fn get_prf_option_by_credential_id_script(
    credential_id: Seq<char>,
    replies: Seq<ReplyModel>,
    at: int,
) -> ProgressModel<Option<JsonModel>> {
    chain(
        fetch_login_credential_script(
            get_prf_option_by_credential_id_statement(credential_id),
            replies,
            at,
        ),
        |row: Option<LoginCredentialWithPrfModel>, at: int| Ok((unlock_option(row), at)),
    )
}

/// What a client needs to unlock the vault with a login passkey: `Some` only where the passkey
/// exists and PRF is enabled for it.
pub fn get_prf_option_by_credential_id(
    credential_id: &str,
    replies: &Vec<Reply>,
    at: usize,
) -> (result: Progress<Option<Json>>)
    ensures
        progress(result) == get_prf_option_by_credential_id_script(
            credential_id@,
            replies.deep_view(),
            at as int,
        ),
{
    let params: Vec<SqlValue> = vec![
        SqlValue::text(credential_id),
    ];
    assert(params.deep_view() =~= get_prf_option_by_credential_id_statement(credential_id@).params);
    let query = statement(
        "SELECT c.id, c.credential_id, c.name, c.transports, \
         COALESCE(p.supports_prf, 0) AS supports_prf, \
         p.encrypted_user_key, p.encrypted_public_key, p.encrypted_private_key \
         FROM webauthn_credentials c \
         LEFT JOIN webauthn_prf_credentials p ON c.id = p.credential_row_id \
         WHERE c.credential_id = ?1 AND c.usage = 'login'",
        params,
    );
    let (row, at) = fetch_login_credential(query, replies, at)?;
    let option = match row {
        Some(credential) => credential.to_prf_option(),
        None => None,
    };
    Ok((option, at))
}

/// A passkey has an unlock option exactly where its status is `Enabled`, and its status is
/// `Enabled` exactly where its authenticator has the extension and all three keys are stored.
pub proof fn law_option_needs_every_key(credential: LoginCredentialWithPrfModel)
    ensures
        credential.prf_option() is Some <==> credential.status() == PrfStatus::Enabled,
        credential.status() == PrfStatus::Enabled <==> {
            &&& credential.supports_prf
            &&& credential.encrypted_user_key is Some
            &&& credential.encrypted_public_key is Some
            &&& credential.encrypted_private_key is Some
        },
{
}

/// A passkey is listed with the number of its status: 0 exactly where its authenticator has the
/// extension and all three keys are stored. The keys that are listed are those that are stored.
pub proof fn law_status_is_listed(credential: LoginCredentialWithPrfModel)
    ensures
        credential.response().get("prfStatus"@) == Some(
            JsonModel::Number(credential.status().number()),
        ),
        credential.response().get("prfStatus"@) == Some(JsonModel::Number(0)) <==> {
            &&& credential.supports_prf
            &&& credential.encrypted_user_key is Some
            &&& credential.encrypted_public_key is Some
            &&& credential.encrypted_private_key is Some
        },
        credential.response().get("encryptedUserKey"@) == Some(
            JsonModel::optional_text(credential.encrypted_user_key),
        ),
        credential.response().get("encryptedPublicKey"@) == Some(
            JsonModel::optional_text(credential.encrypted_public_key),
        ),
{
    broadcast use law_set_then_get;

    reveal_strlit("id");
    assert("id"@.len() == 2);
    reveal_strlit("name");
    assert("name"@.len() == 4);
    reveal_strlit("prfStatus");
    assert("prfStatus"@.len() == 9);
    reveal_strlit("encryptedUserKey");
    assert("encryptedUserKey"@.len() == 16);
    reveal_strlit("encryptedPublicKey");
    assert("encryptedPublicKey"@.len() == 18);
    reveal_strlit("object");
    assert("object"@.len() == 6);
}

} // verus!
