//! Where credentials and the state of running ceremonies are kept.
use vstd::prelude::*;
use vstd::std_specs::convert::FromSpecImpl;
use crate::error::outcome;
use crate::flow::{
    chain, execute, execute_script, fetch_presence, fetch_presence_script, fetch_security_keys,
    fetch_security_keys_script, progress, Progress, ProgressModel, Reply, ReplyModel,
};
use crate::identifier::{
    is_hyphenated, is_random_uuid, law_canonical_uuid_is_kept, lowered, new_row_id, parse_uuid,
    uuid_text,
};
use crate::sql::{
    statement, DbError, DbErrorModel, SqlValue, SqlValueModel, Statement, StatementModel,
};
use crate::text::{after_prefix, join, strip_prefix};
use crate::types::{
    AuthenticatorSelection, AuthenticatorSelectionModel, StoredPasskey, StoredPasskeyModel,
};

verus! {

/// The columns of a credential, in the order in which they are read and written.
pub const CREDENTIAL_COLUMNS: &'static str = "id, user_id, usage, provider_id, name, credential_id, \
    public_key, counter, aaguid, transports, backup_eligible, backup_state, created_at, last_used_at";

/// What a credential is for.
#[derive(Debug, Clone, Copy, PartialEq, Eq, Structural)]
pub enum CredentialUsage {
    /// The second step of a login.
    TwoFactor,
    /// A login without a password.
    Login,
}

impl CredentialUsage {
    /// The word that the database keeps.
    pub open spec fn word(self) -> Seq<char> {
        match self {
            CredentialUsage::TwoFactor => "twofactor"@,
            CredentialUsage::Login => "login"@,
        }
    }

    /// What an authenticator is asked for: a login passkey must be discoverable and verify the
    /// user, a security key need do neither.
    pub open spec fn selection(self) -> AuthenticatorSelectionModel {
        match self {
            CredentialUsage::Login => AuthenticatorSelectionModel {
                authenticator_attachment: None,
                require_resident_key: Some(true),
                resident_key: Some("required"@),
                user_verification: Some("required"@),
            },
            CredentialUsage::TwoFactor => AuthenticatorSelectionModel {
                authenticator_attachment: None,
                require_resident_key: Some(false),
                resident_key: None,
                user_verification: Some("discouraged"@),
            },
        }
    }

    /// The word that the database keeps.
    pub fn as_str(self) -> (word: &'static str)
        ensures
            word@ == self.word(),
    {
        match self {
            CredentialUsage::TwoFactor => "twofactor",
            CredentialUsage::Login => "login",
        }
    }

    /// What an authenticator is asked for.
    pub fn authenticator_selection(self) -> (selection: AuthenticatorSelection)
        ensures
            selection.deep_view() == self.selection(),
    {
        match self {
            CredentialUsage::Login => AuthenticatorSelection {
                authenticator_attachment: None,
                require_resident_key: Some(true),
                resident_key: Some("required".to_string()),
                user_verification: Some("required".to_string()),
            },
            CredentialUsage::TwoFactor => AuthenticatorSelection {
                authenticator_attachment: None,
                require_resident_key: Some(false),
                resident_key: None,
                user_verification: Some("discouraged".to_string()),
            },
        }
    }
}

/// What a store is used for in one request. Each variant carries what its use needs and nothing
/// else.
#[derive(Debug)]
pub enum StoreMode {
    /// Using a login passkey, or starting to register one.
    Login,
    /// Using a security key, or starting to register one.
    TwoFactor,
    /// Finishing the registration of a login passkey.
    LoginRegistration { row_id: String, original_name: String },
    /// Finishing the registration of a security key.
    TwoFactorRegistration { provider_id: i32, original_name: String },
}

/// Model of [`StoreMode`].
pub enum StoreModeModel {
    Login,
    TwoFactor,
    LoginRegistration { row_id: Seq<char>, original_name: Seq<char> },
    TwoFactorRegistration { provider_id: i32, original_name: Seq<char> },
}

impl DeepView for StoreMode {
    type V = StoreModeModel;

    open spec fn deep_view(&self) -> StoreModeModel {
        match self {
            StoreMode::Login => StoreModeModel::Login,
            StoreMode::TwoFactor => StoreModeModel::TwoFactor,
            StoreMode::LoginRegistration { row_id, original_name } => {
                StoreModeModel::LoginRegistration { row_id: row_id@, original_name: original_name@ }
            },
            StoreMode::TwoFactorRegistration { provider_id, original_name } => {
                StoreModeModel::TwoFactorRegistration {
                    provider_id: *provider_id,
                    original_name: original_name@,
                }
            },
        }
    }
}

impl StoreModeModel {
    /// What the credentials of the store are for.
    pub open spec fn usage(self) -> CredentialUsage {
        match self {
            StoreModeModel::Login | StoreModeModel::LoginRegistration { .. } => {
                CredentialUsage::Login
            },
            StoreModeModel::TwoFactor | StoreModeModel::TwoFactorRegistration { .. } => {
                CredentialUsage::TwoFactor
            },
        }
    }
}

impl StoreMode {
    /// What the credentials of the store are for.
    pub fn usage(&self) -> (usage: CredentialUsage)
        ensures
            usage == self.deep_view().usage(),
    {
        match self {
            StoreMode::Login | StoreMode::LoginRegistration { .. } => CredentialUsage::Login,
            StoreMode::TwoFactor | StoreMode::TwoFactorRegistration { .. } => {
                CredentialUsage::TwoFactor
            },
        }
    }
}

/// A row of the `webauthn_credentials` table.
#[derive(Debug)]
pub struct WebauthnCredentialRow {
    pub id: String,
    pub user_id: String,
    pub usage: String,
    /// The number of a security key; clients see it as the id of the key.
    pub provider_id: Option<i32>,
    pub name: String,
    pub credential_id: String,
    pub public_key: String,
    pub counter: i64,
    pub aaguid: Option<String>,
    /// A JSON list of strings.
    pub transports: String,
    pub backup_eligible: i64,
    pub backup_state: i64,
    pub created_at: i64,
    pub last_used_at: i64,
}

/// Model of [`WebauthnCredentialRow`].
pub struct WebauthnCredentialRowModel {
    pub id: Seq<char>,
    pub user_id: Seq<char>,
    pub usage: Seq<char>,
    pub provider_id: Option<i32>,
    pub name: Seq<char>,
    pub credential_id: Seq<char>,
    pub public_key: Seq<char>,
    pub counter: i64,
    pub aaguid: Option<Seq<char>>,
    pub transports: Seq<char>,
    pub backup_eligible: i64,
    pub backup_state: i64,
    pub created_at: i64,
    pub last_used_at: i64,
}

impl DeepView for WebauthnCredentialRow {
    type V = WebauthnCredentialRowModel;

    open spec fn deep_view(&self) -> WebauthnCredentialRowModel {
        WebauthnCredentialRowModel {
            id: self.id@,
            user_id: self.user_id@,
            usage: self.usage@,
            provider_id: self.provider_id.deep_view(),
            name: self.name@,
            credential_id: self.credential_id@,
            public_key: self.public_key@,
            counter: self.counter,
            aaguid: self.aaguid.deep_view(),
            transports: self.transports@,
            backup_eligible: self.backup_eligible,
            backup_state: self.backup_state,
            created_at: self.created_at,
            last_used_at: self.last_used_at,
        }
    }
}

impl From<WebauthnCredentialRow> for StoredPasskey {
    fn from(row: WebauthnCredentialRow) -> (passkey: StoredPasskey) {
        StoredPasskey {
            user_id: row.user_id,
            cred_id: row.credential_id,
            public_key: row.public_key,
            name: row.name,
            created_at: row.created_at,
            last_used_at: row.last_used_at,
            counter: row.counter,
        }
    }
}

impl FromSpecImpl<WebauthnCredentialRow> for StoredPasskey {
    open spec fn obeys_from_spec() -> bool {
        true
    }

    open spec fn from_spec(row: WebauthnCredentialRow) -> StoredPasskey {
        StoredPasskey {
            user_id: row.user_id,
            cred_id: row.credential_id,
            public_key: row.public_key,
            name: row.name,
            created_at: row.created_at,
            last_used_at: row.last_used_at,
            counter: row.counter,
        }
    }
}

impl WebauthnCredentialRowModel {
    /// The credential, as the passkey protocol reads it.
    pub open spec fn passkey(self) -> StoredPasskeyModel {
        StoredPasskeyModel {
            user_id: self.user_id,
            cred_id: self.credential_id,
            public_key: self.public_key,
            name: self.name,
            created_at: self.created_at,
            last_used_at: self.last_used_at,
            counter: self.counter,
        }
    }
}

/// A credential that the passkey protocol has accepted and wants kept.
#[derive(Debug)]
pub struct NewPasskey {
    pub user_id: String,
    pub cred_id: String,
    pub public_key: String,
    /// The name of the credential, a hyphen, and the id of the authenticator model if it told one.
    pub name: String,
    pub counter: i64,
    pub created_at: i64,
}

/// Model of [`NewPasskey`].
pub struct NewPasskeyModel {
    pub user_id: Seq<char>,
    pub cred_id: Seq<char>,
    pub public_key: Seq<char>,
    pub name: Seq<char>,
    pub counter: i64,
    pub created_at: i64,
}

impl DeepView for NewPasskey {
    type V = NewPasskeyModel;

    open spec fn deep_view(&self) -> NewPasskeyModel {
        NewPasskeyModel {
            user_id: self.user_id@,
            cred_id: self.cred_id@,
            public_key: self.public_key@,
            name: self.name@,
            counter: self.counter,
            created_at: self.created_at,
        }
    }
}

/// Why the store failed, in words for the log.
#[derive(Debug)]
pub struct StoreError {
    pub message: String,
}

/// Model of [`StoreError`].
pub struct StoreErrorModel {
    pub message: Seq<char>,
}

impl DeepView for StoreError {
    type V = StoreErrorModel;

    open spec fn deep_view(&self) -> StoreErrorModel {
        StoreErrorModel { message: self.message@ }
    }
}

/// The calls that a store answers.
#[derive(Debug, Clone, Copy, PartialEq, Eq, Structural)]
pub enum StoreCall {
    CreatePasskey,
    GetPasskey,
    ListPasskeys,
    DeletePasskey,
    UpdateCounter,
    UpdateName,
    SaveState,
    GetState,
    DeleteState,
}

impl StoreCall {
    /// The name of the call in error messages.
    pub open spec fn name(self) -> Seq<char> {
        match self {
            StoreCall::CreatePasskey => "create_passkey"@,
            StoreCall::GetPasskey => "get_passkey"@,
            StoreCall::ListPasskeys => "list_passkeys"@,
            StoreCall::DeletePasskey => "delete_passkey"@,
            StoreCall::UpdateCounter => "update_counter"@,
            StoreCall::UpdateName => "update_name"@,
            StoreCall::SaveState => "save_state batch"@,
            StoreCall::GetState => "get_state"@,
            StoreCall::DeleteState => "delete_state"@,
        }
    }

    /// What the passkey protocol is told when the database fails a call.
    pub open spec fn error(self, error: DbErrorModel) -> StoreErrorModel {
        let message = match error {
            DbErrorModel::Bind(_, text) => "bind error: "@ + text,
            DbErrorModel::Query(text) => self.name() + ": "@ + text,
            DbErrorModel::Row(text) => "deser: "@ + text,
        };
        StoreErrorModel { message }
    }

    /// The name of the call in error messages.
    pub fn as_str(self) -> (name: &'static str)
        ensures
            name@ == self.name(),
    {
        match self {
            StoreCall::CreatePasskey => "create_passkey",
            StoreCall::GetPasskey => "get_passkey",
            StoreCall::ListPasskeys => "list_passkeys",
            StoreCall::DeletePasskey => "delete_passkey",
            StoreCall::UpdateCounter => "update_counter",
            StoreCall::UpdateName => "update_name",
            StoreCall::SaveState => "save_state batch",
            StoreCall::GetState => "get_state",
            StoreCall::DeleteState => "delete_state",
        }
    }

    /// What the passkey protocol is told of the database's reply.
    pub fn finish<T>(self, reply: Result<T, DbError>) -> (result: Result<T, StoreError>)
        ensures
            match reply {
                Ok(value) => result == Ok::<T, StoreError>(value),
                Err(error) => result is Err && result->Err_0.deep_view() == self.error(
                    error.deep_view(),
                ),
            },
    {
        match reply {
            Ok(value) => Ok(value),
            Err(DbError::Bind(_, text)) => Err(
                StoreError { message: join("bind error: ", text.as_str()) },
            ),
            Err(DbError::Query(text)) => Err(
                StoreError { message: join(join(self.as_str(), ": ").as_str(), text.as_str()) },
            ),
            Err(DbError::Row(text)) => Err(StoreError { message: join("deser: ", text.as_str()) }),
        }
    }
}

/// A store in a database `D`, for one use in one request.
///
/// It is made by a constructor for the use at hand, which takes what that use needs.
pub struct D1PasskeyStore<'a, D> {
    db: &'a D,
    mode: StoreMode,
}

/// The registration of a credential: where it goes and under which name.
pub open spec fn registration(mode: StoreModeModel) -> Option<(Option<i32>, Seq<char>)> {
    match mode {
        StoreModeModel::LoginRegistration { row_id, original_name } => Some((None, original_name)),
        StoreModeModel::TwoFactorRegistration { provider_id, original_name } => Some(
            (Some(provider_id), original_name),
        ),
        _ => None,
    }
}

/// The row that keeps a new credential.
///
/// It has the name that the user gave. The id of the authenticator model is what the passkey
/// protocol put behind that name and a hyphen, if that is a UUID.
pub open spec fn new_row(
    usage: CredentialUsage,
    row_id: Seq<char>,
    provider_id: Option<i32>,
    original_name: Seq<char>,
    passkey: NewPasskeyModel,
) -> WebauthnCredentialRowModel {
    WebauthnCredentialRowModel {
        id: row_id,
        user_id: passkey.user_id,
        usage: usage.word(),
        provider_id,
        name: original_name,
        credential_id: passkey.cred_id,
        public_key: passkey.public_key,
        counter: passkey.counter,
        aaguid: match after_prefix(passkey.name, original_name + "-"@) {
            Some(suffix) => uuid_text(suffix),
            None => None,
        },
        transports: "[]"@,
        backup_eligible: 0,
        backup_state: 0,
        created_at: passkey.created_at,
        last_used_at: passkey.created_at,
    }
}

/// A number, or `NULL`.
pub open spec fn optional_int(value: Option<i32>) -> SqlValueModel {
    match value {
        Some(value) => SqlValueModel::Int(value as int),
        None => SqlValueModel::Null,
    }
}

/// The statement that writes a row, one value to a column.
pub open spec fn insert_row(row: WebauthnCredentialRowModel) -> StatementModel {
    StatementModel {
        sql: "INSERT INTO webauthn_credentials ("@ + CREDENTIAL_COLUMNS@
            + ") VALUES (?1, ?2, ?3, ?4, ?5, ?6, ?7, ?8, ?9, ?10, ?11, ?12, ?13, ?14)"@,
        params: seq![
            SqlValueModel::Text(row.id),
            SqlValueModel::Text(row.user_id),
            SqlValueModel::Text(row.usage),
            optional_int(row.provider_id),
            SqlValueModel::Text(row.name),
            SqlValueModel::Text(row.credential_id),
            SqlValueModel::Text(row.public_key),
            SqlValueModel::Int(row.counter as int),
            SqlValueModel::optional_text(row.aaguid),
            SqlValueModel::Text(row.transports),
            SqlValueModel::Int(row.backup_eligible as int),
            SqlValueModel::Int(row.backup_state as int),
            SqlValueModel::Int(row.created_at as int),
            SqlValueModel::Int(row.last_used_at as int),
        ],
    }
}

/// What a store that is not finishing a registration answers to a new credential.
pub open spec fn not_registering() -> StoreErrorModel {
    StoreErrorModel { message: "create_passkey requires a registration-mode store"@ }
}

/// The statement that keeps a new credential in the row `row_id`.
pub open spec fn keep_passkey(
    mode: StoreModeModel,
    row_id: Seq<char>,
    passkey: NewPasskeyModel,
) -> Result<StatementModel, StoreErrorModel> {
    match registration(mode) {
        Some((provider_id, original_name)) => Ok(
            insert_row(new_row(mode.usage(), row_id, provider_id, original_name, passkey)),
        ),
        None => Err(not_registering()),
    }
}

/// The id under which the state of a ceremony is kept: that of the passkey protocol, behind the
/// word for the usage and a colon.
pub open spec fn scoped(usage: CredentialUsage, id: Seq<char>) -> Seq<char> {
    usage.word() + ":"@ + id
}

/// A statement that reads credentials.
fn select_credentials(rest: &str, params: Vec<SqlValue>) -> (select: Statement)
    ensures
        select.deep_view() == (StatementModel {
            sql: "SELECT "@ + CREDENTIAL_COLUMNS@ + rest@,
            params: params.deep_view(),
        }),
{
    statement(join(join("SELECT ", CREDENTIAL_COLUMNS).as_str(), rest).as_str(), params)
}

/// The row that keeps a new credential.
pub fn new_credential_row(
    usage: CredentialUsage,
    row_id: String,
    provider_id: Option<i32>,
    original_name: &str,
    passkey: &NewPasskey,
) -> (row: WebauthnCredentialRow)
    ensures
        row.deep_view() == new_row(
            usage,
            row_id@,
            provider_id,
            original_name@,
            passkey.deep_view(),
        ),
{
    let aaguid = match strip_prefix(passkey.name.as_str(), join(original_name, "-").as_str()) {
        Some(suffix) => parse_uuid(suffix),
        None => None,
    };
    WebauthnCredentialRow {
        id: row_id,
        user_id: passkey.user_id.clone(),
        usage: usage.as_str().to_string(),
        provider_id,
        name: original_name.to_string(),
        credential_id: passkey.cred_id.clone(),
        public_key: passkey.public_key.clone(),
        counter: passkey.counter,
        aaguid,
        transports: "[]".to_string(),
        backup_eligible: 0,
        backup_state: 0,
        created_at: passkey.created_at,
        last_used_at: passkey.created_at,
    }
}

/// The statement that writes a row.
pub fn insert_credential(row: &WebauthnCredentialRow) -> (insert: Statement)
    ensures
        insert.deep_view() == insert_row(row.deep_view()),
{
    let provider_id = match row.provider_id {
        Some(value) => SqlValue::Int(value as i64),
        None => SqlValue::Null,
    };
    let params: Vec<SqlValue> = vec![
        SqlValue::text(row.id.as_str()),
        SqlValue::text(row.user_id.as_str()),
        SqlValue::text(row.usage.as_str()),
        provider_id,
        SqlValue::text(row.name.as_str()),
        SqlValue::text(row.credential_id.as_str()),
        SqlValue::text(row.public_key.as_str()),
        SqlValue::Int(row.counter),
        SqlValue::optional_text(&row.aaguid),
        SqlValue::text(row.transports.as_str()),
        SqlValue::Int(row.backup_eligible),
        SqlValue::Int(row.backup_state),
        SqlValue::Int(row.created_at),
        SqlValue::Int(row.last_used_at),
    ];
    assert(params.deep_view() =~= insert_row(row.deep_view()).params);
    let sql = join(
        join("INSERT INTO webauthn_credentials (", CREDENTIAL_COLUMNS).as_str(),
        ") VALUES (?1, ?2, ?3, ?4, ?5, ?6, ?7, ?8, ?9, ?10, ?11, ?12, ?13, ?14)",
    );
    statement(sql.as_str(), params)
}

impl<'a, D> D1PasskeyStore<'a, D> {
    /// The use that the store was made for.
    pub closed spec fn mode(&self) -> StoreModeModel {
        self.mode.deep_view()
    }

    /// The database that the store was made over.
    pub closed spec fn database(&self) -> &'a D {
        self.db
    }

    /// A store for using login passkeys, or for starting to register one.
    pub fn for_login(db: &'a D) -> (store: Self)
        ensures
            store.database() == db,
            store.mode() == StoreModeModel::Login,
    {
        D1PasskeyStore { db, mode: StoreMode::Login }
    }

    /// A store for using security keys, or for starting to register one.
    pub fn for_twofactor(db: &'a D) -> (store: Self)
        ensures
            store.database() == db,
            store.mode() == StoreModeModel::TwoFactor,
    {
        D1PasskeyStore { db, mode: StoreMode::TwoFactor }
    }

    /// A store for finishing the registration of a login passkey.
    pub fn for_login_registration(db: &'a D, row_id: String, original_name: String) -> (store: Self)
        ensures
            store.database() == db,
            store.mode() == (StoreModeModel::LoginRegistration {
                row_id: row_id@,
                original_name: original_name@,
            }),
    {
        D1PasskeyStore { db, mode: StoreMode::LoginRegistration { row_id, original_name } }
    }

    /// A store for finishing the registration of a security key.
    pub fn for_twofactor_registration(db: &'a D, provider_id: i32, original_name: String) -> (store:
        Self)
        ensures
            store.database() == db,
            store.mode() == (StoreModeModel::TwoFactorRegistration {
                provider_id,
                original_name: original_name@,
            }),
    {
        D1PasskeyStore { db, mode: StoreMode::TwoFactorRegistration { provider_id, original_name } }
    }

    /// A store for the use that `mode` tells.
    pub fn for_mode(db: &'a D, mode: StoreMode) -> (store: Self)
        ensures
            store.database() == db,
            store.mode() == mode.deep_view(),
    {
        D1PasskeyStore { db, mode }
    }

    /// The database that the store was made over.
    pub fn db(&self) -> (db: &'a D)
        ensures
            db == self.database(),
    {
        self.db
    }

    /// What the credentials of the store are for.
    pub fn usage(&self) -> (usage: CredentialUsage)
        ensures
            usage == self.mode().usage(),
    {
        self.mode.usage()
    }

    /// The id under which the state of a ceremony is kept. The word for the usage keeps a login
    /// and a second step of the same user apart.
    pub fn scoped_state_id(&self, id: &str) -> (scoped_id: String)
        ensures
            scoped_id@ == scoped(self.mode().usage(), id@),
    {
        join(join(self.usage().as_str(), ":").as_str(), id)
    }

    /// The statement that keeps a new credential in the row `row_id`.
    pub fn create_passkey_in_row(&self, row_id: String, passkey: &NewPasskey) -> (insert: Result<
        Statement,
        StoreError,
    >)
        ensures
            outcome(insert) == keep_passkey(self.mode(), row_id@, passkey.deep_view()),
    {
        let (provider_id, original_name) = match &self.mode {
            StoreMode::LoginRegistration { original_name, .. } => (None, original_name.as_str()),
            StoreMode::TwoFactorRegistration { provider_id, original_name } => (
                Some(*provider_id),
                original_name.as_str(),
            ),
            _ => {
                return Err(
                    StoreError {
                        message: "create_passkey requires a registration-mode store".to_string(),
                    },
                );
            },
        };
        let row = new_credential_row(self.usage(), row_id, provider_id, original_name, passkey);
        Ok(insert_credential(&row))
    }

    /// The statement that keeps a new credential: a login passkey in the row that the store was
    /// made for, a security key in a row with a fresh random id.
    pub fn create_passkey(&self, passkey: &NewPasskey) -> (insert: Result<Statement, StoreError>)
        ensures
            match self.mode() {
                StoreModeModel::LoginRegistration { row_id, .. } => outcome(insert) == keep_passkey(
                    self.mode(),
                    row_id,
                    passkey.deep_view(),
                ),
                StoreModeModel::TwoFactorRegistration { .. } => exists|row_id: Seq<char>|
                    {
                        &&& is_random_uuid(row_id)
                        &&& outcome(insert) == #[trigger] keep_passkey(
                            self.mode(),
                            row_id,
                            passkey.deep_view(),
                        )
                    },
                _ => outcome(insert) == Err::<StatementModel, StoreErrorModel>(not_registering()),
            },
    {
        let row_id = match &self.mode {
            StoreMode::LoginRegistration { row_id, .. } => row_id.clone(),
            StoreMode::TwoFactorRegistration { .. } => new_row_id(),
            _ => String::new(),
        };
        self.create_passkey_in_row(row_id, passkey)
    }

    /// The statement that reads a credential of the store's usage by its credential id.
    pub fn get_passkey(&self, cred_id: &str) -> (select: Statement)
        ensures
            select.deep_view() == (StatementModel {
                sql: "SELECT "@ + CREDENTIAL_COLUMNS@
                    + " FROM webauthn_credentials WHERE credential_id = ?1 AND usage = ?2"@,
                params: seq![
                    SqlValueModel::Text(cred_id@),
                    SqlValueModel::Text(self.mode().usage().word()),
                ],
            }),
    {
        let params: Vec<SqlValue> = vec![
            SqlValue::text(cred_id),
            SqlValue::text(self.usage().as_str()),
        ];
        assert(params.deep_view() =~= seq![
            SqlValueModel::Text(cred_id@),
            SqlValueModel::Text(self.mode().usage().word()),
        ]);
        select_credentials(
            " FROM webauthn_credentials WHERE credential_id = ?1 AND usage = ?2",
            params,
        )
    }

    /// The statement that reads the credentials of a user for the store's usage, oldest first.
    pub fn list_passkeys(&self, user_id: &str) -> (select: Statement)
        ensures
            select.deep_view() == (StatementModel {
                sql: "SELECT "@ + CREDENTIAL_COLUMNS@
                    + " FROM webauthn_credentials WHERE user_id = ?1 AND usage = ?2 ORDER BY created_at ASC"@,
                params: seq![
                    SqlValueModel::Text(user_id@),
                    SqlValueModel::Text(self.mode().usage().word()),
                ],
            }),
    {
        let params: Vec<SqlValue> = vec![
            SqlValue::text(user_id),
            SqlValue::text(self.usage().as_str()),
        ];
        assert(params.deep_view() =~= seq![
            SqlValueModel::Text(user_id@),
            SqlValueModel::Text(self.mode().usage().word()),
        ]);
        select_credentials(
            " FROM webauthn_credentials WHERE user_id = ?1 AND usage = ?2 ORDER BY created_at ASC",
            params,
        )
    }

    /// The statement that deletes a credential of a user.
    pub fn delete_passkey(&self, user_id: &str, cred_id: &str) -> (delete: Statement)
        ensures
            delete.deep_view() == (StatementModel {
                sql: "DELETE FROM webauthn_credentials WHERE credential_id = ?1 AND user_id = ?2"@,
                params: seq![SqlValueModel::Text(cred_id@), SqlValueModel::Text(user_id@)],
            }),
    {
        let params: Vec<SqlValue> = vec![SqlValue::text(cred_id), SqlValue::text(user_id)];
        assert(params.deep_view() =~= seq![
            SqlValueModel::Text(cred_id@),
            SqlValueModel::Text(user_id@),
        ]);
        statement(
            "DELETE FROM webauthn_credentials WHERE credential_id = ?1 AND user_id = ?2",
            params,
        )
    }

    /// The statement that keeps the signature counter of a credential, and when it was used.
    pub fn update_passkey_counter(
        &self,
        cred_id: &str,
        new_counter: i64,
        last_used_at: i64,
    ) -> (update: Statement)
        ensures
            update.deep_view() == (StatementModel {
                sql: "UPDATE webauthn_credentials SET counter = ?1, last_used_at = ?2 WHERE credential_id = ?3"@,
                params: seq![
                    SqlValueModel::Int(new_counter as int),
                    SqlValueModel::Int(last_used_at as int),
                    SqlValueModel::Text(cred_id@),
                ],
            }),
    {
        let params: Vec<SqlValue> = vec![
            SqlValue::Int(new_counter),
            SqlValue::Int(last_used_at),
            SqlValue::text(cred_id),
        ];
        assert(params.deep_view() =~= seq![
            SqlValueModel::Int(new_counter as int),
            SqlValueModel::Int(last_used_at as int),
            SqlValueModel::Text(cred_id@),
        ]);
        statement(
            "UPDATE webauthn_credentials SET counter = ?1, last_used_at = ?2 WHERE credential_id = ?3",
            params,
        )
    }

    /// The statement that renames a credential.
    pub fn update_passkey_name(&self, cred_id: &str, new_name: &str) -> (update: Statement)
        ensures
            update.deep_view() == (StatementModel {
                sql: "UPDATE webauthn_credentials SET name = ?1 WHERE credential_id = ?2"@,
                params: seq![SqlValueModel::Text(new_name@), SqlValueModel::Text(cred_id@)],
            }),
    {
        let params: Vec<SqlValue> = vec![SqlValue::text(new_name), SqlValue::text(cred_id)];
        assert(params.deep_view() =~= seq![
            SqlValueModel::Text(new_name@),
            SqlValueModel::Text(cred_id@),
        ]);
        statement("UPDATE webauthn_credentials SET name = ?1 WHERE credential_id = ?2", params)
    }

    /// The batch that keeps the state of a ceremony under its scoped id, and then clears every
    /// state that has expired.
    pub fn save_state(&self, id: &str, state_json: &str, expires_at: i64, now_ms: i64) -> (batch: (
        Statement,
        Statement,
    ))
        ensures
            batch.0.deep_view() == (StatementModel {
                sql: "INSERT OR REPLACE INTO webauthn_states (id, state_json, expires_at, created_at) VALUES (?1, ?2, ?3, ?4)"@,
                params: seq![
                    SqlValueModel::Text(scoped(self.mode().usage(), id@)),
                    SqlValueModel::Text(state_json@),
                    SqlValueModel::Int(expires_at as int),
                    SqlValueModel::Int(now_ms as int),
                ],
            }),
            batch.1.deep_view() == (StatementModel {
                sql: "DELETE FROM webauthn_states WHERE expires_at <= ?1"@,
                params: seq![SqlValueModel::Int(now_ms as int)],
            }),
    {
        let scoped_id = self.scoped_state_id(id);
        let params: Vec<SqlValue> = vec![
            SqlValue::Text(scoped_id),
            SqlValue::text(state_json),
            SqlValue::Int(expires_at),
            SqlValue::Int(now_ms),
        ];
        assert(params.deep_view() =~= seq![
            SqlValueModel::Text(scoped(self.mode().usage(), id@)),
            SqlValueModel::Text(state_json@),
            SqlValueModel::Int(expires_at as int),
            SqlValueModel::Int(now_ms as int),
        ]);
        let insert = statement(
            "INSERT OR REPLACE INTO webauthn_states (id, state_json, expires_at, created_at) VALUES (?1, ?2, ?3, ?4)",
            params,
        );
        let params: Vec<SqlValue> = vec![SqlValue::Int(now_ms)];
        assert(params.deep_view() =~= seq![SqlValueModel::Int(now_ms as int)]);
        let purge = statement("DELETE FROM webauthn_states WHERE expires_at <= ?1", params);
        (insert, purge)
    }

    /// The statement that reads the state of a ceremony under its scoped id, if it has not
    /// expired.
    pub fn get_state(&self, id: &str, now_ms: i64) -> (select: Statement)
        ensures
            select.deep_view() == (StatementModel {
                sql: "SELECT id, state_json, expires_at FROM webauthn_states WHERE id = ?1 AND expires_at > ?2"@,
                params: seq![
                    SqlValueModel::Text(scoped(self.mode().usage(), id@)),
                    SqlValueModel::Int(now_ms as int),
                ],
            }),
    {
        let params: Vec<SqlValue> = vec![
            SqlValue::Text(self.scoped_state_id(id)),
            SqlValue::Int(now_ms),
        ];
        assert(params.deep_view() =~= seq![
            SqlValueModel::Text(scoped(self.mode().usage(), id@)),
            SqlValueModel::Int(now_ms as int),
        ]);
        statement(
            "SELECT id, state_json, expires_at FROM webauthn_states WHERE id = ?1 AND expires_at > ?2",
            params,
        )
    }

    /// The statement that deletes the state of a ceremony under its scoped id.
    pub fn delete_state(&self, id: &str) -> (delete: Statement)
        ensures
            delete.deep_view() == (StatementModel {
                sql: "DELETE FROM webauthn_states WHERE id = ?1"@,
                params: seq![SqlValueModel::Text(scoped(self.mode().usage(), id@))],
            }),
    {
        let params: Vec<SqlValue> = vec![SqlValue::Text(self.scoped_state_id(id))];
        assert(params.deep_view() =~= seq![
            SqlValueModel::Text(scoped(self.mode().usage(), id@)),
        ]);
        statement("DELETE FROM webauthn_states WHERE id = ?1", params)
    }
}

/// The credentials that rows keep, in their order.
pub fn stored_passkeys(rows: Vec<WebauthnCredentialRow>) -> (passkeys: Vec<StoredPasskey>)
    ensures
        passkeys.deep_view() == rows.deep_view().map_values(
            |row: WebauthnCredentialRowModel| row.passkey(),
        ),
{
    let ghost models = rows.deep_view();
    let mut passkeys: Vec<StoredPasskey> = Vec::new();
    for row in it: rows.into_iter()
        invariant
            it.seq().len() == models.len(),
            forall|i: int| 0 <= i < models.len() ==> (
                #[trigger] it.seq()[i]
            ).deep_view() == models[i],
            passkeys@.len() == it.index(),
            forall|i: int|
                0 <= i < passkeys@.len() ==> (#[trigger] passkeys@[i]).deep_view()
                    == models[i].passkey(),
    {
        passkeys.push(StoredPasskey::from(row));
    }
    assert(passkeys.deep_view() =~= models.map_values(
        |row: WebauthnCredentialRowModel| row.passkey(),
    ));
    passkeys
}

/// The query for the security keys of a user, by their numbers.
pub open spec fn list_twofactor_credentials_statement(
    user_id: Seq<char>,
) -> StatementModel {
    StatementModel {
        sql: "SELECT "@ + CREDENTIAL_COLUMNS@ + " FROM webauthn_credentials WHERE user_id = ?1 AND usage = 'twofactor' ORDER BY provider_id ASC"@,
        params: seq![
            SqlValueModel::Text(user_id),
        ],
    }
}

/// The security keys of a user, by their numbers.
pub open spec fn list_twofactor_credentials_script(
    user_id: Seq<char>,
    replies: Seq<ReplyModel>,
    at: int,
) -> ProgressModel<Seq<WebauthnCredentialRowModel>> {
    fetch_security_keys_script(list_twofactor_credentials_statement(user_id), replies, at)
}

/// The security keys of a user, by their numbers.
pub fn list_twofactor_credentials<'a>(
    user_id: &str,
    replies: &'a Vec<Reply>,
    at: usize,
) -> (result: Progress<&'a Vec<WebauthnCredentialRow>>)
    ensures
        progress(result) == list_twofactor_credentials_script(
            user_id@,
            replies.deep_view(),
            at as int,
        ),
{
    let params: Vec<SqlValue> = vec![
        SqlValue::text(user_id),
    ];
    assert(params.deep_view() =~= list_twofactor_credentials_statement(user_id@).params);
    let query = select_credentials(
        " FROM webauthn_credentials WHERE user_id = ?1 AND usage = 'twofactor' ORDER BY provider_id ASC",
        params,
    );
    fetch_security_keys(query, replies, at)
}

/// The query for a security key of a user by its number.
pub open spec fn twofactor_provider_id_exists_statement(
    user_id: Seq<char>,
    provider_id: i32,
) -> StatementModel {
    StatementModel {
        sql: "SELECT 1 AS present FROM webauthn_credentials WHERE user_id = ?1 AND usage = 'twofactor' AND provider_id = ?2 LIMIT 1"@,
        params: seq![
            SqlValueModel::Text(user_id),
            SqlValueModel::Int(provider_id as int),
        ],
    }
}

/// Whether a user has a security key with this number.
pub open spec fn twofactor_provider_id_exists_script(
    user_id: Seq<char>,
    provider_id: i32,
    replies: Seq<ReplyModel>,
    at: int,
) -> ProgressModel<bool> {
    fetch_presence_script(twofactor_provider_id_exists_statement(user_id, provider_id), replies, at)
}

/// Whether a user has a security key with this number.
pub fn twofactor_provider_id_exists(
    user_id: &str,
    provider_id: i32,
    replies: &Vec<Reply>,
    at: usize,
) -> (result: Progress<bool>)
    ensures
        progress(result) == twofactor_provider_id_exists_script(
            user_id@,
            provider_id,
            replies.deep_view(),
            at as int,
        ),
{
    let params: Vec<SqlValue> = vec![
        SqlValue::text(user_id),
        SqlValue::Int(provider_id as i64),
    ];
    assert(
        params.deep_view() =~= twofactor_provider_id_exists_statement(user_id@, provider_id).params
    );
    let query = statement(
        "SELECT 1 AS present FROM webauthn_credentials WHERE user_id = ?1 AND usage = 'twofactor' AND provider_id = ?2 LIMIT 1",
        params,
    );
    fetch_presence(query, replies, at)
}

/// The statement that deletes a security key of a user by its number.
pub open spec fn delete_twofactor_credential_by_provider_id_statement(
    user_id: Seq<char>,
    provider_id: i32,
) -> StatementModel {
    StatementModel {
        sql: "DELETE FROM webauthn_credentials WHERE user_id = ?1 AND usage = 'twofactor' AND provider_id = ?2"@,
        params: seq![
            SqlValueModel::Text(user_id),
            SqlValueModel::Int(provider_id as int),
        ],
    }
}

/// Deletes a security key of a user by its number, and tells whether there was one.
pub open spec fn delete_twofactor_credential_by_provider_id_script(
    user_id: Seq<char>,
    provider_id: i32,
    replies: Seq<ReplyModel>,
    at: int,
) -> ProgressModel<bool> {
    chain(
        execute_script(
            delete_twofactor_credential_by_provider_id_statement(user_id, provider_id),
            replies,
            at,
        ),
        |changed: Option<bool>, at: int| Ok((changed == Some(true), at)),
    )
}

/// Deletes a security key of a user by its number, and tells whether there was one: whether the
/// database says that it changed.
pub fn delete_twofactor_credential_by_provider_id(
    user_id: &str,
    provider_id: i32,
    replies: &Vec<Reply>,
    at: usize,
) -> (result: Progress<bool>)
    ensures
        progress(result) == delete_twofactor_credential_by_provider_id_script(
            user_id@,
            provider_id,
            replies.deep_view(),
            at as int,
        ),
{
    let params: Vec<SqlValue> = vec![
        SqlValue::text(user_id),
        SqlValue::Int(provider_id as i64),
    ];
    assert(
        params.deep_view() =~= delete_twofactor_credential_by_provider_id_statement(
            user_id@,
            provider_id,
        ).params
    );
    let query = statement(
        "DELETE FROM webauthn_credentials WHERE user_id = ?1 AND usage = 'twofactor' AND provider_id = ?2",
        params,
    );
    let (changed, at) = execute(query, replies, at)?;
    let deleted = match changed {
        Some(value) => value,
        None => false,
    };
    Ok((deleted, at))
}

/// The statement that deletes a login passkey of a user by its row id.
pub open spec fn delete_login_credential_statement(
    user_id: Seq<char>,
    row_id: Seq<char>,
) -> StatementModel {
    StatementModel {
        sql: "DELETE FROM webauthn_credentials WHERE id = ?1 AND user_id = ?2 AND usage = 'login'"@,
        params: seq![
            SqlValueModel::Text(row_id),
            SqlValueModel::Text(user_id),
        ],
    }
}

/// Deletes a login passkey of a user by its row id, and tells whether there was one.
pub open spec fn delete_login_credential_script(
    user_id: Seq<char>,
    row_id: Seq<char>,
    replies: Seq<ReplyModel>,
    at: int,
) -> ProgressModel<bool> {
    chain(
        execute_script(delete_login_credential_statement(user_id, row_id), replies, at),
        |changed: Option<bool>, at: int| Ok((changed == Some(true), at)),
    )
}

/// Deletes a login passkey of a user by its row id, and tells whether there was one: whether the
/// database says that it changed.
pub fn delete_login_credential(
    user_id: &str,
    row_id: &str,
    replies: &Vec<Reply>,
    at: usize,
) -> (result: Progress<bool>)
    ensures
        progress(result) == delete_login_credential_script(
            user_id@,
            row_id@,
            replies.deep_view(),
            at as int,
        ),
{
    let params: Vec<SqlValue> = vec![
        SqlValue::text(row_id),
        SqlValue::text(user_id),
    ];
    assert(params.deep_view() =~= delete_login_credential_statement(user_id@, row_id@).params);
    let query = statement(
        "DELETE FROM webauthn_credentials WHERE id = ?1 AND user_id = ?2 AND usage = 'login'",
        params,
    );
    let (changed, at) = execute(query, replies, at)?;
    let deleted = match changed {
        Some(value) => value,
        None => false,
    };
    Ok((deleted, at))
}

/// The states of ceremonies never share an id across usages, and within a usage only where the
/// passkey protocol itself uses one id.
pub proof fn law_scoped_ids_do_not_collide(
    a: CredentialUsage,
    id_a: Seq<char>,
    b: CredentialUsage,
    id_b: Seq<char>,
)
    ensures
        scoped(a, id_a) == scoped(b, id_b) <==> a == b && id_a == id_b,
{
    reveal_strlit("twofactor");
    reveal_strlit("login");
    reveal_strlit(":");
    let x = scoped(a, id_a);
    let y = scoped(b, id_b);
    if x == y {
        if a != b {
            assert(x[0] == a.word()[0]);
            assert(y[0] == b.word()[0]);
        } else {
            let n = a.word().len() + 1;
            assert(x.skip(n as int) =~= id_a);
            assert(y.skip(n as int) =~= id_b);
        }
    }
}

/// A credential whose authenticator told its model: the row keeps the name that the user gave and
/// the id of the model, both just as they were.
pub proof fn law_authenticator_model_is_kept(
    usage: CredentialUsage,
    row_id: Seq<char>,
    provider_id: Option<i32>,
    original_name: Seq<char>,
    passkey: NewPasskeyModel,
    aaguid: Seq<char>,
)
    requires
        is_hyphenated(aaguid),
        lowered(aaguid) == aaguid,
        passkey.name == original_name + "-"@ + aaguid,
    ensures
        ({
            let row = new_row(usage, row_id, provider_id, original_name, passkey);
            row.name == original_name && row.aaguid == Some(aaguid)
        }),
{
    let prefix = original_name + "-"@;
    assert(prefix.is_prefix_of(passkey.name));
    assert(passkey.name.skip(prefix.len() as int) =~= aaguid);
    law_canonical_uuid_is_kept(aaguid);
}

/// A credential whose authenticator told no model: the row keeps the name and no model.
pub proof fn law_no_authenticator_model(
    usage: CredentialUsage,
    row_id: Seq<char>,
    provider_id: Option<i32>,
    original_name: Seq<char>,
    passkey: NewPasskeyModel,
)
    requires
        passkey.name == original_name,
    ensures
        ({
            let row = new_row(usage, row_id, provider_id, original_name, passkey);
            row.name == original_name && row.aaguid is None
        }),
{
    reveal_strlit("-");
}

/// A credential that was kept is read back as it was accepted, under the name that the user gave,
/// and last used when it was made.
pub proof fn law_kept_credential_reads_back(
    usage: CredentialUsage,
    row_id: Seq<char>,
    provider_id: Option<i32>,
    original_name: Seq<char>,
    passkey: NewPasskeyModel,
)
    ensures
        new_row(usage, row_id, provider_id, original_name, passkey).passkey() == (
        StoredPasskeyModel {
            user_id: passkey.user_id,
            cred_id: passkey.cred_id,
            public_key: passkey.public_key,
            name: original_name,
            created_at: passkey.created_at,
            last_used_at: passkey.created_at,
            counter: passkey.counter,
        }),
{
}

} // verus!
