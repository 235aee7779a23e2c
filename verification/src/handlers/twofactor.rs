//! Second factors: one-time passwords, security keys and the recovery code.
use vstd::prelude::*;
use crate::encoding::law_normalized_decodes;
use crate::error::{bad_request, outcome, AppError, AppErrorModel};
use crate::flow::{
    chain, compare_secrets, compare_secrets_script, decode_base32, decode_base32_script,
    describe_providers, describe_providers_script, execute, execute_or_database,
    execute_or_database_script, execute_script, fetch_recovery_code, fetch_recovery_code_script,
    fetch_twofactor, fetch_twofactor_script, fetch_twofactors, fetch_twofactors_script,
    generate_recovery_code, generate_recovery_code_script, generate_totp_secret,
    generate_totp_secret_script, new_twofactor, new_twofactor_script, progress, read_clock,
    read_clock_script, validate_totp, validate_totp_script, ActionModel, Progress, ProgressModel,
    Reply, ReplyModel, Stop, StopModel,
};
use crate::handlers::{authorize, authorize_script, display_name, displayed_name, guarded, vouched};
use crate::json::{Json, JsonModel};
use crate::models::{
    password_or_otp, DisableAuthenticatorData, DisableAuthenticatorDataModel, DisableTwoFactorData,
    DisableTwoFactorDataModel, EnableAuthenticatorData, EnableAuthenticatorDataModel,
    PasswordOrOtpData, PasswordOrOtpDataModel, TwoFactor, TwoFactorModel, TwoFactorType, UserModel,
};
use crate::sql::{statement, SqlValue, SqlValueModel, Statement, StatementModel};
use crate::text::{is_ascii_text, join, to_uppercase, uppercase, uppered};
use crate::types::{
    PasskeyConfig, PasskeyConfigModel, PublicKeyCredentialCreationOptionsModel,
    RegistrationResponseModel,
};
use crate::util::{NumberOrString, NumberOrStringModel};
use crate::webauthn::ceremony::{
    finish_ceremony_registration, finish_ceremony_registration_script, start_ceremony_registration,
    start_ceremony_registration_script, ToBitwardenJson,
};
use crate::webauthn::compat::{
    receive_registration, receive_registration_script, RegistrationPayloadModel,
};
use crate::webauthn::store::{
    delete_twofactor_credential_by_provider_id, delete_twofactor_credential_by_provider_id_script,
    list_twofactor_credentials, list_twofactor_credentials_script, twofactor_provider_id_exists,
    twofactor_provider_id_exists_script, StoreMode, StoreModeModel, WebauthnCredentialRow,
    WebauthnCredentialRowModel,
};
use crate::webauthn::{allowed_origin, build_passkey_config, config_for, url_host};

verus! {

// Statements.

/// The query for the second factors of a user that clients know of.
pub open spec fn select_twofactors(user_id: Seq<char>) -> StatementModel {
    StatementModel {
        sql: "SELECT * FROM twofactor WHERE user_uuid = ?1 AND atype < 1000"@,
        params: seq![SqlValueModel::Text(user_id)],
    }
}

/// The query for whether a user has security keys.
pub open spec fn select_security_key(user_id: Seq<char>) -> StatementModel {
    StatementModel {
        sql: "SELECT 1 AS present FROM webauthn_credentials WHERE user_id = ?1 AND usage = 'twofactor' LIMIT 1"@,
        params: seq![SqlValueModel::Text(user_id)],
    }
}

/// The query for a second factor of a user by its provider number.
pub open spec fn select_twofactor(user_id: Seq<char>, atype: i32) -> StatementModel {
    StatementModel {
        sql: "SELECT * FROM twofactor WHERE user_uuid = ?1 AND atype = ?2"@,
        params: seq![SqlValueModel::Text(user_id), SqlValueModel::Int(atype as int)],
    }
}

/// The statement that deletes a second factor of a user by its provider number.
pub open spec fn delete_twofactor(user_id: Seq<char>, atype: i32) -> StatementModel {
    StatementModel {
        sql: "DELETE FROM twofactor WHERE user_uuid = ?1 AND atype = ?2"@,
        params: seq![SqlValueModel::Text(user_id), SqlValueModel::Int(atype as int)],
    }
}

/// The statement that deletes a second factor by its id.
pub open spec fn delete_twofactor_row(uuid: Seq<char>) -> StatementModel {
    StatementModel {
        sql: "DELETE FROM twofactor WHERE uuid = ?1"@,
        params: seq![SqlValueModel::Text(uuid)],
    }
}

/// The statement that deletes every security key of a user.
pub open spec fn delete_security_keys(user_id: Seq<char>) -> StatementModel {
    StatementModel {
        sql: "DELETE FROM webauthn_credentials WHERE user_id = ?1 AND usage = 'twofactor'"@,
        params: seq![SqlValueModel::Text(user_id)],
    }
}

/// The statement that keeps a second factor.
pub open spec fn insert_twofactor(twofactor: TwoFactorModel) -> StatementModel {
    StatementModel {
        sql: "INSERT INTO twofactor (uuid, user_uuid, atype, enabled, data, last_used) VALUES (?1, ?2, ?3, ?4, ?5, ?6)"@,
        params: seq![
            SqlValueModel::Text(twofactor.uuid),
            SqlValueModel::Text(twofactor.user_uuid),
            SqlValueModel::Int(twofactor.atype as int),
            SqlValueModel::Int(
                if twofactor.enabled {
                    1
                } else {
                    0
                },
            ),
            SqlValueModel::Text(twofactor.data),
            SqlValueModel::Int(twofactor.last_used as int),
        ],
    }
}

/// The query for the recovery code of a user.
pub open spec fn select_recovery_code(user_id: Seq<char>) -> StatementModel {
    StatementModel {
        sql: "SELECT totp_recover FROM users WHERE id = ?1"@,
        params: seq![SqlValueModel::Text(user_id)],
    }
}

/// The statement that gives a user a recovery code.
pub open spec fn set_recovery_code(user_id: Seq<char>, code: Seq<char>) -> StatementModel {
    StatementModel {
        sql: "UPDATE users SET totp_recover = ?1 WHERE id = ?2"@,
        params: seq![SqlValueModel::Text(code), SqlValueModel::Text(user_id)],
    }
}

/// The statement that takes the recovery code of a user away.
pub open spec fn clear_recovery_code(user_id: Seq<char>) -> StatementModel {
    StatementModel {
        sql: "UPDATE users SET totp_recover = NULL WHERE id = ?1"@,
        params: seq![SqlValueModel::Text(user_id)],
    }
}

fn on_user(sql: &str, user_id: &str) -> (query: Statement)
    ensures
        query.deep_view() == (StatementModel {
            sql: sql@,
            params: seq![SqlValueModel::Text(user_id@)],
        }),
{
    let params: Vec<SqlValue> = vec![SqlValue::text(user_id)];
    assert(params.deep_view() =~= seq![SqlValueModel::Text(user_id@)]);
    statement(sql, params)
}

fn on_type(sql: &str, user_id: &str, atype: i32) -> (query: Statement)
    ensures
        query.deep_view() == (StatementModel {
            sql: sql@,
            params: seq![SqlValueModel::Text(user_id@), SqlValueModel::Int(atype as int)],
        }),
{
    let params: Vec<SqlValue> = vec![SqlValue::text(user_id), SqlValue::Int(atype as i64)];
    assert(params.deep_view() =~= seq![
        SqlValueModel::Text(user_id@),
        SqlValueModel::Int(atype as int),
    ]);
    statement(sql, params)
}

/// The statement that keeps a second factor.
fn insert_of(twofactor: &TwoFactor) -> (insert: Statement)
    ensures
        insert.deep_view() == insert_twofactor(twofactor.deep_view()),
{
    let enabled: i64 = if twofactor.enabled { 1 } else { 0 };
    let params: Vec<SqlValue> = vec![
        SqlValue::text(twofactor.uuid.as_str()),
        SqlValue::text(twofactor.user_uuid.as_str()),
        SqlValue::Int(twofactor.atype as i64),
        SqlValue::Int(enabled),
        SqlValue::text(twofactor.data.as_str()),
        SqlValue::Int(twofactor.last_used),
    ];
    assert(params.deep_view() =~= insert_twofactor(twofactor.deep_view()).params);
    statement(
        "INSERT INTO twofactor (uuid, user_uuid, atype, enabled, data, last_used) VALUES (?1, ?2, ?3, ?4, ?5, ?6)",
        params,
    )
}

// Which second factors a user has.

/// The entry that stands for all security keys of a user.
pub open spec fn security_keys_entry(user_id: Seq<char>) -> TwoFactorModel {
    TwoFactorModel {
        uuid: "webauthn-2fa-"@ + user_id,
        user_uuid: user_id,
        atype: TwoFactorType::Webauthn.number(),
        enabled: true,
        data: ""@,
        last_used: 0,
    }
}

/// Second factors, and an entry for security keys behind them if there are any.
pub open spec fn all_twofactors(
    twofactors: Seq<TwoFactorModel>,
    user_id: Seq<char>,
    security_keys: bool,
) -> Seq<TwoFactorModel> {
    if security_keys {
        twofactors.push(security_keys_entry(user_id))
    } else {
        twofactors
    }
}

/// Every second factor of a user.
pub open spec fn list_user_twofactors_script(
    user_id: Seq<char>,
    replies: Seq<ReplyModel>,
    at: int,
) -> ProgressModel<Seq<TwoFactorModel>> {
    chain(
        fetch_twofactors_script(
            select_twofactors(user_id),
            select_security_key(user_id),
            replies,
            at,
        ),
        |found: (Seq<TwoFactorModel>, usize), at: int|
            Ok((all_twofactors(found.0, user_id, found.1 > 0), at)),
    )
}

/// Every second factor of a user: those in the `twofactor` table, and one entry behind them that
/// stands for all security keys if there are any.
pub fn list_user_twofactors(user_id: &str, replies: &Vec<Reply>, at: usize) -> (result: Progress<
    Vec<TwoFactor>,
>)
    ensures
        progress(result) == list_user_twofactors_script(user_id@, replies.deep_view(), at as int),
{
    let (found, at) = fetch_twofactors(
        on_user("SELECT * FROM twofactor WHERE user_uuid = ?1 AND atype < 1000", user_id),
        on_user(
            "SELECT 1 AS present FROM webauthn_credentials WHERE user_id = ?1 AND usage = 'twofactor' LIMIT 1",
            user_id,
        ),
        replies,
        at,
    )?;
    let mut twofactors: Vec<TwoFactor> = Vec::new();
    for i in 0..found.0.len()
        invariant
            twofactors@.len() == i,
            forall|j: int|
                0 <= j < i ==> (#[trigger] twofactors@[j]).deep_view() == found.0@[j].deep_view(),
    {
        twofactors.push(found.0[i].clone());
    }
    assert(twofactors.deep_view() =~= found.0.deep_view());
    if found.1 > 0 {
        let ghost before = twofactors.deep_view();
        twofactors.push(
            TwoFactor {
                uuid: join("webauthn-2fa-", user_id),
                user_uuid: user_id.to_string(),
                atype: TwoFactorType::Webauthn.as_i32(),
                enabled: true,
                data: "".to_string(),
                last_used: 0,
            },
        );
        assert(twofactors.deep_view() =~= before.push(security_keys_entry(user_id@)));
    }
    Ok((twofactors, at))
}

/// Whether a second factor is on and of this type.
pub open spec fn is_active(twofactor: TwoFactorModel, type_: TwoFactorType) -> bool {
    twofactor.enabled && twofactor.atype == type_.number()
}

/// Whether a second factor of this type is on.
pub open spec fn has_active(twofactors: Seq<TwoFactorModel>, type_: TwoFactorType) -> bool {
    exists|i: int| 0 <= i < twofactors.len() && is_active(#[trigger] twofactors[i], type_)
}

/// Whether a real second factor is on: one-time passwords or security keys.
pub open spec fn twofactor_enabled(twofactors: Seq<TwoFactorModel>) -> bool {
    has_active(twofactors, TwoFactorType::Authenticator) || has_active(
        twofactors,
        TwoFactorType::Webauthn,
    )
}

/// The number of a type, in a list, if a second factor of it is on.
pub open spec fn active_id(twofactors: Seq<TwoFactorModel>, type_: TwoFactorType) -> Seq<i32> {
    if has_active(twofactors, type_) {
        seq![type_.number()]
    } else {
        Seq::empty()
    }
}

/// The numbers of the types that are on, in increasing order.
pub open spec fn provider_ids(twofactors: Seq<TwoFactorModel>) -> Seq<i32> {
    active_id(twofactors, TwoFactorType::Authenticator) + active_id(
        twofactors,
        TwoFactorType::Webauthn,
    )
}

/// Whether a second factor of this type is on.
fn any_active(twofactors: &[TwoFactor], type_: TwoFactorType) -> (active: bool)
    ensures
        active == has_active(twofactors.deep_view(), type_),
{
    let ghost models = twofactors.deep_view();
    for i in 0..twofactors.len()
        invariant
            models == twofactors.deep_view(),
            forall|j: int| 0 <= j < i ==> !is_active(#[trigger] models[j], type_),
    {
        assert(models[i as int] == twofactors@[i as int].deep_view());
        if twofactors[i].enabled && twofactors[i].atype == type_.as_i32() {
            return true;
        }
    }
    false
}

/// Whether a real second factor is on: one-time passwords or security keys.
pub fn is_twofactor_enabled(twofactors: &[TwoFactor]) -> (enabled: bool)
    ensures
        enabled == twofactor_enabled(twofactors.deep_view()),
{
    any_active(twofactors, TwoFactorType::Authenticator) || any_active(
        twofactors,
        TwoFactorType::Webauthn,
    )
}

/// The numbers of the real second factors that are on, each once and in increasing order.
pub fn active_provider_ids(twofactors: &[TwoFactor]) -> (ids: Vec<i32>)
    ensures
        ids@ == provider_ids(twofactors.deep_view()),
{
    let mut ids: Vec<i32> = Vec::new();
    if any_active(twofactors, TwoFactorType::Authenticator) {
        ids.push(TwoFactorType::Authenticator.as_i32());
    }
    if any_active(twofactors, TwoFactorType::Webauthn) {
        ids.push(TwoFactorType::Webauthn.as_i32());
    }
    assert(ids@ =~= provider_ids(twofactors.deep_view()));
    ids
}

// The recovery code.

/// Gives a user a recovery code, unless there is one.
pub open spec fn generate_recovery_code_for_user_script(
    user_id: Seq<char>,
    replies: Seq<ReplyModel>,
    at: int,
) -> ProgressModel<()> {
    chain(
        fetch_recovery_code_script(select_recovery_code(user_id), replies, at),
        |row: Option<Option<Seq<char>>>, at: int|
            match row {
                None => Err(StopModel::Fail(AppErrorModel::Unauthorized("User not found"@))),
                Some(Some(_)) => Ok(((), at)),
                Some(None) => chain(
                    generate_recovery_code_script(replies, at),
                    |code: Seq<char>, at: int|
                        chain(
                            execute_or_database_script(
                                set_recovery_code(user_id, code),
                                replies,
                                at,
                            ),
                            |changed: Option<bool>, at: int| Ok(((), at)),
                        ),
                ),
            },
    )
}

/// Gives a user a recovery code, unless there is one.
pub fn generate_recovery_code_for_user(user_id: &str, replies: &Vec<Reply>, at: usize) -> (result:
    Progress<()>)
    ensures
        progress(result) == generate_recovery_code_for_user_script(
            user_id@,
            replies.deep_view(),
            at as int,
        ),
{
    let (row, at) = fetch_recovery_code(
        on_user("SELECT totp_recover FROM users WHERE id = ?1", user_id),
        replies,
        at,
    )?;
    let existing = match row {
        Some(existing) => existing,
        None => {
            return Err(Stop::Fail(AppError::Unauthorized("User not found".to_string())));
        },
    };
    if existing.is_some() {
        return Ok(((), at));
    }
    let (code, at) = generate_recovery_code(replies, at)?;
    let params: Vec<SqlValue> = vec![SqlValue::text(code.as_str()), SqlValue::text(user_id)];
    assert(params.deep_view() =~= set_recovery_code(user_id@, code@).params);
    let update = statement("UPDATE users SET totp_recover = ?1 WHERE id = ?2", params);
    let (_changed, at) = execute_or_database(update, replies, at)?;
    Ok(((), at))
}

/// Takes the recovery code of a user away, if no real second factor is on.
pub open spec fn clear_recovery_if_no_twofactor_script(
    user_id: Seq<char>,
    replies: Seq<ReplyModel>,
    at: int,
) -> ProgressModel<()> {
    chain(
        list_user_twofactors_script(user_id, replies, at),
        |remaining: Seq<TwoFactorModel>, at: int|
            if twofactor_enabled(remaining) {
                Ok(((), at))
            } else {
                chain(
                    execute_or_database_script(clear_recovery_code(user_id), replies, at),
                    |changed: Option<bool>, at: int| Ok(((), at)),
                )
            },
    )
}

/// Takes the recovery code of a user away, if no real second factor is on.
pub fn clear_recovery_if_no_twofactor(user_id: &str, replies: &Vec<Reply>, at: usize) -> (result:
    Progress<()>)
    ensures
        progress(result) == clear_recovery_if_no_twofactor_script(
            user_id@,
            replies.deep_view(),
            at as int,
        ),
{
    let (remaining, at) = list_user_twofactors(user_id, replies, at)?;
    if is_twofactor_enabled(remaining.as_slice()) {
        return Ok(((), at));
    }
    let (_changed, at) = execute_or_database(
        on_user("UPDATE users SET totp_recover = NULL WHERE id = ?1", user_id),
        replies,
        at,
    )?;
    Ok(((), at))
}

// One-time passwords.

/// What a client is told of one-time passwords.
pub open spec fn authenticator_answer(enabled: bool, key: Seq<char>) -> JsonModel {
    JsonModel::object().with("enabled"@, JsonModel::Bool(enabled)).with(
        "key"@,
        JsonModel::Text(key),
    ).with("object"@, JsonModel::Text("twoFactorAuthenticator"@))
}

fn answer_authenticator(enabled: bool, key: &str) -> (answer: Json)
    ensures
        answer.deep_view() == authenticator_answer(enabled, key@),
{
    let mut answer = Json::object();
    answer.set("enabled", Json::Bool(enabled));
    answer.set("key", Json::text(key));
    answer.set("object", Json::text("twoFactorAuthenticator"));
    answer
}

/// What a client is told of a second factor that was turned off.
pub open spec fn disabled_answer(type_: i32) -> JsonModel {
    JsonModel::object().with("enabled"@, JsonModel::Bool(false)).with(
        "type"@,
        JsonModel::Number(type_ as int),
    ).with("object"@, JsonModel::Text("twoFactorProvider"@))
}

fn answer_disabled(type_: i32) -> (answer: Json)
    ensures
        answer.deep_view() == disabled_answer(type_),
{
    let mut answer = Json::object();
    answer.set("enabled", Json::Bool(false));
    answer.set("type", Json::Int(type_ as i64));
    answer.set("object", Json::text("twoFactorProvider"));
    answer
}

/// Second factors, as a client is told of them.
pub open spec fn providers_answer(providers: Seq<JsonModel>) -> JsonModel {
    JsonModel::object().with("data"@, JsonModel::List(providers)).with(
        "object"@,
        JsonModel::Text("list"@),
    ).with("continuationToken"@, JsonModel::Null)
}

/// The second factors that are on, in their order.
pub open spec fn only_enabled(twofactors: Seq<TwoFactorModel>) -> Seq<TwoFactorModel> {
    twofactors.filter(|twofactor: TwoFactorModel| twofactor.enabled)
}

/// The second factors that are on, in their order.
pub fn enabled_twofactors(twofactors: &[TwoFactor]) -> (enabled: Vec<TwoFactor>)
    ensures
        enabled.deep_view() == only_enabled(twofactors.deep_view()),
{
    let ghost models = twofactors.deep_view();
    let mut enabled: Vec<TwoFactor> = Vec::new();
    proof {
        reveal(Seq::filter);
        assert(enabled.deep_view() =~= only_enabled(models.take(0)));
    }
    for i in 0..twofactors.len()
        invariant
            models == twofactors.deep_view(),
            enabled.deep_view() == only_enabled(models.take(i as int)),
    {
        proof {
            reveal(Seq::filter);
            assert(models[i as int] == twofactors@[i as int].deep_view());
            assert(models.take(i + 1).drop_last() =~= models.take(i as int));
        }
        if twofactors[i].enabled {
            let ghost before = enabled.deep_view();
            enabled.push(twofactors[i].clone());
            assert(enabled.deep_view() =~= before.push(models[i as int]));
        }
    }
    assert(models.take(models.len() as int) =~= models);
    enabled
}

/// The end of an endpoint that answers with second factors.
pub open spec fn tell_providers_script(
    twofactors: Seq<TwoFactorModel>,
    replies: Seq<ReplyModel>,
    at: int,
) -> ProgressModel<JsonModel> {
    chain(
        describe_providers_script(twofactors, replies, at),
        |providers: Seq<JsonModel>, at: int| Ok((providers_answer(providers), at)),
    )
}

/// `GET /api/two-factor`: the second factors of the caller that are on.
pub open spec fn get_twofactor_script(
    user_id: Seq<char>,
    replies: Seq<ReplyModel>,
) -> ProgressModel<JsonModel> {
    chain(
        list_user_twofactors_script(user_id, replies, 0),
        |twofactors: Seq<TwoFactorModel>, at: int|
            tell_providers_script(only_enabled(twofactors), replies, at),
    )
}

/// `GET /api/two-factor`: the second factors of the caller that are on.
pub fn get_twofactor(user_id: &str, replies: &Vec<Reply>) -> (result: Progress<Json>)
    ensures
        progress(result) == get_twofactor_script(user_id@, replies.deep_view()),
{
    let (twofactors, at) = list_user_twofactors(user_id, replies, 0)?;
    let enabled = enabled_twofactors(twofactors.as_slice());
    let (providers, at) = describe_providers(enabled, replies, at)?;
    let mut answer = Json::object();
    answer.set("data", Json::list(providers));
    answer.set("object", Json::text("list"));
    answer.set("continuationToken", Json::Null);
    Ok((answer, at))
}

/// `POST /api/two-factor/get-authenticator`: the secret of the caller's one-time passwords, or a
/// new one to turn them on with.
pub open spec fn get_authenticator_script(
    user_id: Seq<char>,
    data: PasswordOrOtpDataModel,
    replies: Seq<ReplyModel>,
) -> ProgressModel<JsonModel> {
    chain(
        authorize_script(user_id, data, replies),
        |user: UserModel, at: int|
            chain(
                fetch_twofactor_script(
                    select_twofactor(user_id, TwoFactorType::Authenticator.number()),
                    replies,
                    at,
                ),
                |existing: Option<TwoFactorModel>, at: int|
                    match existing {
                        Some(twofactor) => Ok((authenticator_answer(true, twofactor.data), at)),
                        None => chain(
                            generate_totp_secret_script(replies, at),
                            |secret: Seq<char>, at: int|
                                Ok((authenticator_answer(false, secret), at)),
                        ),
                    },
            ),
    )
}

/// `POST /api/two-factor/get-authenticator`: the secret of the caller's one-time passwords, or a
/// new one to turn them on with.
pub fn get_authenticator(
    user_id: &str,
    data: &PasswordOrOtpData,
    replies: &Vec<Reply>,
) -> (result: Progress<Json>)
    ensures
        progress(result) == get_authenticator_script(
            user_id@,
            data.deep_view(),
            replies.deep_view(),
        ),
{
    let (_user, at) = authorize(user_id, data, replies)?;
    let (existing, at) = fetch_twofactor(
        on_type(
            "SELECT * FROM twofactor WHERE user_uuid = ?1 AND atype = ?2",
            user_id,
            TwoFactorType::Authenticator.as_i32(),
        ),
        replies,
        at,
    )?;
    match existing {
        Some(twofactor) => Ok((answer_authenticator(true, twofactor.data.as_str()), at)),
        None => {
            let (secret, at) = generate_totp_secret(replies, at)?;
            Ok((answer_authenticator(false, secret.as_str()), at))
        },
    }
}

/// The last time step that a second factor accepted, if there is one.
pub open spec fn last_step(existing: Option<TwoFactorModel>) -> i64 {
    match existing {
        Some(twofactor) => twofactor.last_used,
        None => 0,
    }
}

/// Puts one-time passwords with a new secret in the place of those there are, and gives the user a
/// recovery code unless there is one.
pub open spec fn replace_authenticator_script(
    user_id: Seq<char>,
    key: Seq<char>,
    step: i64,
    replies: Seq<ReplyModel>,
    at: int,
) -> ProgressModel<JsonModel> {
    chain(
        execute_or_database_script(
            delete_twofactor(user_id, TwoFactorType::Authenticator.number()),
            replies,
            at,
        ),
        |changed: Option<bool>, at: int|
            chain(
                new_twofactor_script(user_id, TwoFactorType::Authenticator, key, replies, at),
                |twofactor: TwoFactorModel, at: int|
                    chain(
                        execute_or_database_script(
                            insert_twofactor(TwoFactorModel { last_used: step, ..twofactor }),
                            replies,
                            at,
                        ),
                        |changed: Option<bool>, at: int|
                            chain(
                                generate_recovery_code_for_user_script(user_id, replies, at),
                                |done: (), at: int| Ok((authenticator_answer(true, key), at)),
                            ),
                    ),
            ),
    )
}

/// Puts one-time passwords with a new secret in the place of those there are, and gives the user a
/// recovery code unless there is one. `step` is the time step that was last accepted.
fn replace_authenticator(
    user_id: &str,
    key: &str,
    step: i64,
    replies: &Vec<Reply>,
    at: usize,
) -> (result: Progress<Json>)
    ensures
        progress(result) == replace_authenticator_script(
            user_id@,
            key@,
            step,
            replies.deep_view(),
            at as int,
        ),
{
    let (_changed, at) = execute_or_database(
        on_type(
            "DELETE FROM twofactor WHERE user_uuid = ?1 AND atype = ?2",
            user_id,
            TwoFactorType::Authenticator.as_i32(),
        ),
        replies,
        at,
    )?;
    let (new, at) = new_twofactor(user_id, TwoFactorType::Authenticator, key, replies, at)?;
    let mut twofactor = new.clone();
    twofactor.last_used = step;
    let (_changed, at) = execute_or_database(insert_of(&twofactor), replies, at)?;
    let (_done, at) = generate_recovery_code_for_user(user_id, replies, at)?;
    Ok((answer_authenticator(true, key), at))
}

/// Turns on one-time passwords with the secret `key`, for which the caller gives a first one.
pub open spec fn activate_authenticator_script(
    user_id: Seq<char>,
    data: EnableAuthenticatorDataModel,
    key: Seq<char>,
    replies: Seq<ReplyModel>,
) -> ProgressModel<JsonModel> {
    chain(
        authorize_script(user_id, data.credentials(), replies),
        |user: UserModel, at: int|
            chain(
                decode_base32_script(key, replies, at),
                |secret: Seq<u8>, at: int|
                    if secret.len() != 20 {
                        Err(StopModel::Fail(AppErrorModel::BadRequest("Invalid key length"@)))
                    } else {
                        chain(
                            fetch_twofactor_script(
                                select_twofactor(user_id, TwoFactorType::Authenticator.number()),
                                replies,
                                at,
                            ),
                            |existing: Option<TwoFactorModel>, at: int|
                                chain(
                                    validate_totp_script(
                                        data.token,
                                        key,
                                        last_step(existing),
                                        replies,
                                        at,
                                    ),
                                    |step: i64, at: int|
                                        replace_authenticator_script(
                                            user_id,
                                            key,
                                            step,
                                            replies,
                                            at,
                                        ),
                                ),
                        )
                    },
            ),
    )
}

/// Turns on one-time passwords with the secret `key`, for which the caller gives a first one.
///
/// The secret is 20 bytes in base32. A time step that was accepted before the change is not
/// accepted again.
pub fn activate_authenticator_with(
    user_id: &str,
    data: &EnableAuthenticatorData,
    key: &str,
    replies: &Vec<Reply>,
) -> (result: Progress<Json>)
    ensures
        progress(result) == activate_authenticator_script(
            user_id@,
            data.deep_view(),
            key@,
            replies.deep_view(),
        ),
{
    let (_user, at) = authorize(
        user_id,
        &password_or_otp(&data.master_password_hash, &data.otp),
        replies,
    )?;
    let (secret, at) = decode_base32(key, replies, at)?;
    if secret.len() != 20 {
        return Err(Stop::Fail(bad_request("Invalid key length")));
    }
    let (existing, at) = fetch_twofactor(
        on_type(
            "SELECT * FROM twofactor WHERE user_uuid = ?1 AND atype = ?2",
            user_id,
            TwoFactorType::Authenticator.as_i32(),
        ),
        replies,
        at,
    )?;
    let last_used: i64 = match existing {
        Some(twofactor) => twofactor.last_used,
        None => 0,
    };
    let (step, at) = validate_totp(data.token.as_str(), key, last_used, replies, at)?;
    replace_authenticator(user_id, key, step, replies, at)
}

/// `POST /api/two-factor/authenticator`: turns on one-time passwords. The secret counts in upper
/// case.
pub fn activate_authenticator(
    user_id: &str,
    data: &EnableAuthenticatorData,
    replies: &Vec<Reply>,
) -> (result: Progress<Json>)
    ensures
        progress(result) == activate_authenticator_script(
            user_id@,
            data.deep_view(),
            uppercase(data.key@),
            replies.deep_view(),
        ),
        is_ascii_text(data.key@) ==> progress(result) == activate_authenticator_script(
            user_id@,
            data.deep_view(),
            uppered(data.key@),
            replies.deep_view(),
        ),
{
    let key = to_uppercase(data.key.as_str());
    activate_authenticator_with(user_id, data, key.as_str(), replies)
}

/// `PUT /api/two-factor/authenticator`: the same as `POST`.
pub fn activate_authenticator_put(
    user_id: &str,
    data: &EnableAuthenticatorData,
    replies: &Vec<Reply>,
) -> (result: Progress<Json>)
    ensures
        progress(result) == activate_authenticator_script(
            user_id@,
            data.deep_view(),
            uppercase(data.key@),
            replies.deep_view(),
        ),
        is_ascii_text(data.key@) ==> progress(result) == activate_authenticator_script(
            user_id@,
            data.deep_view(),
            uppered(data.key@),
            replies.deep_view(),
        ),
{
    activate_authenticator(user_id, data, replies)
}

/// Deletes the second factor of one type. Security keys are credentials and have a table of their
/// own.
pub open spec fn delete_type_script(
    user_id: Seq<char>,
    type_: i32,
    replies: Seq<ReplyModel>,
    at: int,
) -> ProgressModel<Option<bool>> {
    if type_ == TwoFactorType::Webauthn.number() {
        execute_script(delete_security_keys(user_id), replies, at)
    } else {
        execute_or_database_script(delete_twofactor(user_id, type_), replies, at)
    }
}

/// `POST /api/two-factor/disable`: turns off a second factor.
pub open spec fn disable_twofactor_script(
    user_id: Seq<char>,
    data: DisableTwoFactorDataModel,
    replies: Seq<ReplyModel>,
) -> ProgressModel<JsonModel> {
    chain(
        authorize_script(user_id, data.credentials(), replies),
        |user: UserModel, at: int|
            chain(
                delete_type_script(user_id, data.type_, replies, at),
                |changed: Option<bool>, at: int|
                    chain(
                        clear_recovery_if_no_twofactor_script(user_id, replies, at),
                        |done: (), at: int| Ok((disabled_answer(data.type_), at)),
                    ),
            ),
    )
}

/// `POST /api/two-factor/disable`: turns off a second factor, and takes the recovery code away if
/// no real one is left.
pub fn disable_twofactor(
    user_id: &str,
    data: &DisableTwoFactorData,
    replies: &Vec<Reply>,
) -> (result: Progress<Json>)
    ensures
        progress(result) == disable_twofactor_script(
            user_id@,
            data.deep_view(),
            replies.deep_view(),
        ),
{
    let (_user, at) = authorize(
        user_id,
        &password_or_otp(&data.master_password_hash, &data.otp),
        replies,
    )?;
    let (_changed, at) = if data.type_ == TwoFactorType::Webauthn.as_i32() {
        execute(
            on_user(
                "DELETE FROM webauthn_credentials WHERE user_id = ?1 AND usage = 'twofactor'",
                user_id,
            ),
            replies,
            at,
        )?
    } else {
        execute_or_database(
            on_type(
                "DELETE FROM twofactor WHERE user_uuid = ?1 AND atype = ?2",
                user_id,
                data.type_,
            ),
            replies,
            at,
        )?
    };
    let (_done, at) = clear_recovery_if_no_twofactor(user_id, replies, at)?;
    Ok((answer_disabled(data.type_), at))
}

/// `PUT /api/two-factor/disable`: the same as `POST`.
pub fn disable_twofactor_put(
    user_id: &str,
    data: &DisableTwoFactorData,
    replies: &Vec<Reply>,
) -> (result: Progress<Json>)
    ensures
        progress(result) == disable_twofactor_script(
            user_id@,
            data.deep_view(),
            replies.deep_view(),
        ),
{
    disable_twofactor(user_id, data, replies)
}

/// Deletes one-time passwords whose secret is `key`, and takes the recovery code away if no real
/// second factor is left.
pub open spec fn delete_authenticator_script(
    user_id: Seq<char>,
    type_: i32,
    twofactor: TwoFactorModel,
    key: Seq<char>,
    replies: Seq<ReplyModel>,
    at: int,
) -> ProgressModel<JsonModel> {
    chain(
        compare_secrets_script(twofactor.data, key, replies, at),
        |same: bool, at: int|
            if !same {
                Err(
                    StopModel::Fail(
                        AppErrorModel::BadRequest("TOTP key does not match recorded value"@),
                    ),
                )
            } else {
                chain(
                    execute_or_database_script(
                        delete_twofactor_row(twofactor.uuid),
                        replies,
                        at,
                    ),
                    |changed: Option<bool>, at: int|
                        chain(
                            clear_recovery_if_no_twofactor_script(user_id, replies, at),
                            |done: (), at: int| Ok((disabled_answer(type_), at)),
                        ),
                )
            },
    )
}

/// Turns off one-time passwords whose secret is `key`.
pub open spec fn disable_authenticator_script(
    user_id: Seq<char>,
    data: DisableAuthenticatorDataModel,
    key: Seq<char>,
    replies: Seq<ReplyModel>,
) -> ProgressModel<JsonModel> {
    if data.type_ != TwoFactorType::Authenticator.number() {
        Err(StopModel::Fail(AppErrorModel::BadRequest("Invalid two factor type"@)))
    } else {
        chain(
            authorize_script(user_id, data.credentials(), replies),
            |user: UserModel, at: int|
                chain(
                    fetch_twofactor_script(select_twofactor(user_id, data.type_), replies, at),
                    |existing: Option<TwoFactorModel>, at: int|
                        match existing {
                            None => Err(
                                StopModel::Fail(
                                    AppErrorModel::BadRequest("TOTP not configured"@),
                                ),
                            ),
                            Some(twofactor) => delete_authenticator_script(
                                user_id,
                                data.type_,
                                twofactor,
                                key,
                                replies,
                                at,
                            ),
                        },
                ),
        )
    }
}

/// Turns off one-time passwords whose secret is `key`: those with another secret stay.
pub fn disable_authenticator_with(
    user_id: &str,
    data: &DisableAuthenticatorData,
    key: &str,
    replies: &Vec<Reply>,
) -> (result: Progress<Json>)
    ensures
        progress(result) == disable_authenticator_script(
            user_id@,
            data.deep_view(),
            key@,
            replies.deep_view(),
        ),
{
    if data.type_ != TwoFactorType::Authenticator.as_i32() {
        return Err(Stop::Fail(bad_request("Invalid two factor type")));
    }
    let (_user, at) = authorize(
        user_id,
        &password_or_otp(&data.master_password_hash, &data.otp),
        replies,
    )?;
    let (existing, at) = fetch_twofactor(
        on_type(
            "SELECT * FROM twofactor WHERE user_uuid = ?1 AND atype = ?2",
            user_id,
            data.type_,
        ),
        replies,
        at,
    )?;
    let twofactor = match existing {
        Some(twofactor) => twofactor,
        None => {
            return Err(Stop::Fail(bad_request("TOTP not configured")));
        },
    };
    let (same, at) = compare_secrets(twofactor.data.as_str(), key, replies, at)?;
    if !same {
        return Err(Stop::Fail(bad_request("TOTP key does not match recorded value")));
    }
    let (_changed, at) = execute_or_database(
        on_user("DELETE FROM twofactor WHERE uuid = ?1", twofactor.uuid.as_str()),
        replies,
        at,
    )?;
    let (_done, at) = clear_recovery_if_no_twofactor(user_id, replies, at)?;
    Ok((answer_disabled(data.type_), at))
}

/// `DELETE /api/two-factor/authenticator`: turns off one-time passwords by their secret, which
/// counts in upper case, as it does when they are turned on.
pub fn disable_authenticator(
    user_id: &str,
    data: &DisableAuthenticatorData,
    replies: &Vec<Reply>,
) -> (result: Progress<Json>)
    ensures
        progress(result) == disable_authenticator_script(
            user_id@,
            data.deep_view(),
            uppercase(data.key@),
            replies.deep_view(),
        ),
        is_ascii_text(data.key@) ==> progress(result) == disable_authenticator_script(
            user_id@,
            data.deep_view(),
            uppered(data.key@),
            replies.deep_view(),
        ),
{
    let key = to_uppercase(data.key.as_str());
    disable_authenticator_with(user_id, data, key.as_str(), replies)
}

/// What a client is told of the recovery code.
pub open spec fn recover_answer(code: Option<Seq<char>>) -> JsonModel {
    JsonModel::object().with("code"@, JsonModel::optional_text(code)).with(
        "object"@,
        JsonModel::Text("twoFactorRecover"@),
    )
}

/// `POST /api/two-factor/get-recover`: the recovery code of the caller.
pub open spec fn get_recover_script(
    user_id: Seq<char>,
    data: PasswordOrOtpDataModel,
    replies: Seq<ReplyModel>,
) -> ProgressModel<JsonModel> {
    chain(
        authorize_script(user_id, data, replies),
        |user: UserModel, at: int| Ok((recover_answer(user.totp_recover), at)),
    )
}

/// `POST /api/two-factor/get-recover`: the recovery code of the caller.
pub fn get_recover(user_id: &str, data: &PasswordOrOtpData, replies: &Vec<Reply>) -> (result:
    Progress<Json>)
    ensures
        progress(result) == get_recover_script(user_id@, data.deep_view(), replies.deep_view()),
{
    let (user, at) = authorize(user_id, data, replies)?;
    let mut answer = Json::object();
    answer.set("code", Json::optional_text(&user.totp_recover));
    answer.set("object", Json::text("twoFactorRecover"));
    Ok((answer, at))
}

// Security keys.
//
// Listing security keys answers with the object `twoFactorWebAuthn`, and changing them with
// `twoFactorU2f`: that is what clients are used to.

/// A security key, as a client is told of it.
pub open spec fn key_json(provider_id: i32, name: Seq<char>) -> JsonModel {
    JsonModel::object().with("id"@, JsonModel::Number(provider_id as int)).with(
        "name"@,
        JsonModel::Text(name),
    ).with("migrated"@, JsonModel::Bool(false))
}

/// Whether every security key has its number.
pub open spec fn all_numbered(rows: Seq<WebauthnCredentialRowModel>) -> bool {
    forall|i: int| 0 <= i < rows.len() ==> (#[trigger] rows[i]).provider_id is Some
}

/// Security keys, as a client is told of them. One without a number is an internal error.
pub open spec fn keys_json(rows: Seq<WebauthnCredentialRowModel>) -> Result<
    Seq<JsonModel>,
    AppErrorModel,
> {
    if all_numbered(rows) {
        Ok(Seq::new(rows.len(), |i: int| key_json(rows[i].provider_id->0, rows[i].name)))
    } else {
        Err(AppErrorModel::Internal)
    }
}

/// Security keys, as a client is told of them. One without a number is an internal error.
pub fn webauthn_keys_json(creds: &[WebauthnCredentialRow]) -> (keys: Result<Vec<Json>, AppError>)
    ensures
        outcome(keys) == keys_json(creds.deep_view()),
{
    let ghost rows = creds.deep_view();
    let mut keys: Vec<Json> = Vec::new();
    for i in 0..creds.len()
        invariant
            rows == creds.deep_view(),
            keys@.len() == i,
            forall|j: int| 0 <= j < i ==> (#[trigger] rows[j]).provider_id is Some,
            forall|j: int|
                0 <= j < i ==> (#[trigger] keys@[j]).model() == key_json(
                    rows[j].provider_id->0,
                    rows[j].name,
                ),
    {
        assert(rows[i as int] == creds@[i as int].deep_view());
        let provider_id: i32 = match creds[i].provider_id {
            Some(provider_id) => provider_id,
            None => {
                return Err(AppError::Internal);
            },
        };
        let mut key = Json::object();
        key.set("id", Json::Int(provider_id as i64));
        key.set("name", Json::text(creds[i].name.as_str()));
        key.set("migrated", Json::Bool(false));
        keys.push(key);
    }
    assert(keys.deep_view() =~= Seq::new(
        rows.len(),
        |i: int| key_json(rows[i].provider_id->0, rows[i].name),
    ));
    Ok(keys)
}

/// What a client is told of its security keys.
pub open spec fn keys_answer(enabled: bool, keys: Seq<JsonModel>, object: Seq<char>) -> JsonModel {
    JsonModel::object().with("enabled"@, JsonModel::Bool(enabled)).with(
        "keys"@,
        JsonModel::List(keys),
    ).with("object"@, JsonModel::Text(object))
}

/// The end of an endpoint that answers with the security keys of a user. They are on where `on`
/// says so or there is one.
pub open spec fn answer_keys_script(
    user_id: Seq<char>,
    on: bool,
    object: Seq<char>,
    replies: Seq<ReplyModel>,
    at: int,
) -> ProgressModel<JsonModel> {
    chain(
        list_twofactor_credentials_script(user_id, replies, at),
        |rows: Seq<WebauthnCredentialRowModel>, at: int|
            match keys_json(rows) {
                Ok(keys) => Ok((keys_answer(on || rows.len() > 0, keys, object), at)),
                Err(error) => Err(StopModel::Fail(error)),
            },
    )
}

/// The end of an endpoint that answers with the security keys of a user. They are on where `on`
/// says so or there is one.
fn answer_keys(user_id: &str, on: bool, object: &str, replies: &Vec<Reply>, at: usize) -> (result:
    Progress<Json>)
    ensures
        progress(result) == answer_keys_script(
            user_id@,
            on,
            object@,
            replies.deep_view(),
            at as int,
        ),
{
    let (creds, at) = list_twofactor_credentials(user_id, replies, at)?;
    let keys = match webauthn_keys_json(creds.as_slice()) {
        Ok(keys) => keys,
        Err(error) => {
            return Err(Stop::Fail(error));
        },
    };
    let mut answer = Json::object();
    answer.set("enabled", Json::Bool(on || creds.len() > 0));
    answer.set("keys", Json::list(&keys));
    answer.set("object", Json::text(object));
    Ok((answer, at))
}

/// `POST /api/two-factor/get-webauthn`: the security keys of the caller.
pub open spec fn get_webauthn_twofactor_script(
    user_id: Seq<char>,
    data: PasswordOrOtpDataModel,
    replies: Seq<ReplyModel>,
) -> ProgressModel<JsonModel> {
    chain(
        authorize_script(user_id, data, replies),
        |user: UserModel, at: int|
            answer_keys_script(user_id, false, "twoFactorWebAuthn"@, replies, at),
    )
}

/// `POST /api/two-factor/get-webauthn`: the security keys of the caller.
pub fn get_webauthn_twofactor(
    user_id: &str,
    data: &PasswordOrOtpData,
    replies: &Vec<Reply>,
) -> (result: Progress<Json>)
    ensures
        progress(result) == get_webauthn_twofactor_script(
            user_id@,
            data.deep_view(),
            replies.deep_view(),
        ),
{
    let (_user, at) = authorize(user_id, data, replies)?;
    answer_keys(user_id, false, "twoFactorWebAuthn", replies, at)
}

/// Options for registering a security key, with the marks that clients look for.
pub open spec fn challenge_answer(options: PublicKeyCredentialCreationOptionsModel) -> JsonModel {
    options.json().with("status"@, JsonModel::Text("ok"@)).with(
        "errorMessage"@,
        JsonModel::Text(""@),
    )
}

/// `POST /api/two-factor/get-webauthn-challenge`: options for registering a security key.
pub open spec fn get_webauthn_challenge_script(
    config: PasskeyConfigModel,
    user_id: Seq<char>,
    email: Seq<char>,
    data: PasswordOrOtpDataModel,
    replies: Seq<ReplyModel>,
) -> ProgressModel<JsonModel> {
    chain(
        authorize_script(user_id, data, replies),
        |user: UserModel, at: int|
            chain(
                read_clock_script(replies, at),
                |now_ms: i64, at: int|
                    chain(
                        start_ceremony_registration_script(
                            StoreModeModel::TwoFactor,
                            user_id,
                            email,
                            display_name(user, email),
                            config,
                            now_ms,
                            replies,
                            at,
                        ),
                        |options: PublicKeyCredentialCreationOptionsModel, at: int|
                            Ok((challenge_answer(options), at)),
                    ),
            ),
    )
}

/// Options for registering a security key at a relying party.
pub fn get_webauthn_challenge_with(
    config: &PasskeyConfig,
    user_id: &str,
    email: &str,
    data: &PasswordOrOtpData,
    replies: &Vec<Reply>,
) -> (result: Progress<Json>)
    ensures
        progress(result) == get_webauthn_challenge_script(
            config.deep_view(),
            user_id@,
            email@,
            data.deep_view(),
            replies.deep_view(),
        ),
{
    let (user, at) = authorize(user_id, data, replies)?;
    let (now_ms, at) = read_clock(replies, at)?;
    let (options, at) = start_ceremony_registration(
        StoreMode::TwoFactor,
        user_id,
        email,
        displayed_name(user, email),
        config,
        now_ms,
        replies,
        at,
    )?;
    let mut answer = options.to_bitwarden_json();
    answer.set("status", Json::text("ok"));
    answer.set("errorMessage", Json::text(""));
    Ok((answer, at))
}

/// `POST /api/two-factor/get-webauthn-challenge`: options for registering a security key.
pub fn get_webauthn_challenge(
    base_url: &str,
    user_id: &str,
    email: &str,
    data: &PasswordOrOtpData,
    replies: &Vec<Reply>,
) -> (result: Progress<Json>)
    ensures
        progress(result) == get_webauthn_challenge_script(
            config_for(url_host(base_url@), base_url@),
            user_id@,
            email@,
            data.deep_view(),
            replies.deep_view(),
        ),
{
    let config = build_passkey_config(base_url);
    get_webauthn_challenge_with(&config, user_id, email, data, replies)
}

/// The body of a request to register a security key.
#[derive(Debug)]
pub struct WebauthnRegisterData {
    pub master_password_hash: Option<String>,
    pub otp: Option<String>,
    /// The number that the key is to have.
    pub id: NumberOrString,
    pub device_response: serde_json::Value,
    pub name: String,
}

/// Model of [`WebauthnRegisterData`].
pub struct WebauthnRegisterDataModel {
    pub master_password_hash: Option<Seq<char>>,
    pub otp: Option<Seq<char>>,
    pub id: NumberOrStringModel,
    pub device_response: serde_json::Value,
    pub name: Seq<char>,
}

impl WebauthnRegisterDataModel {
    /// What proves that the caller owns the account.
    pub open spec fn credentials(self) -> PasswordOrOtpDataModel {
        PasswordOrOtpDataModel { master_password_hash: self.master_password_hash, otp: self.otp }
    }
}

impl DeepView for WebauthnRegisterData {
    type V = WebauthnRegisterDataModel;

    open spec fn deep_view(&self) -> WebauthnRegisterDataModel {
        WebauthnRegisterDataModel {
            master_password_hash: self.master_password_hash.deep_view(),
            otp: self.otp.deep_view(),
            id: self.id.deep_view(),
            device_response: self.device_response,
            name: self.name@,
        }
    }
}

/// Registers a security key under a number that is free, and gives the user a recovery code unless
/// there is one.
pub open spec fn register_key_script(
    config: PasskeyConfigModel,
    user_id: Seq<char>,
    provider_id: i32,
    data: WebauthnRegisterDataModel,
    replies: Seq<ReplyModel>,
    at: int,
) -> ProgressModel<()> {
    chain(
        read_clock_script(replies, at),
        |now_ms: i64, at: int|
            chain(
                receive_registration_script(data.device_response, Some(data.name), replies, at),
                |registration: RegistrationResponseModel, at: int|
                    chain(
                        finish_ceremony_registration_script(
                            StoreModeModel::TwoFactorRegistration {
                                provider_id,
                                original_name: data.name,
                            },
                            user_id,
                            config,
                            registration,
                            now_ms,
                            replies,
                            at,
                        ),
                        |done: (), at: int|
                            generate_recovery_code_for_user_script(user_id, replies, at),
                    ),
            ),
    )
}

/// Registers a security key under a number that is free, and gives the user a recovery code unless
/// there is one.
fn register_key(
    config: &PasskeyConfig,
    user_id: &str,
    provider_id: i32,
    data: &WebauthnRegisterData,
    replies: &Vec<Reply>,
    at: usize,
) -> (result: Progress<()>)
    ensures
        progress(result) == register_key_script(
            config.deep_view(),
            user_id@,
            provider_id,
            data.deep_view(),
            replies.deep_view(),
            at as int,
        ),
{
    let (now_ms, at) = read_clock(replies, at)?;
    let (registration, at) = receive_registration(
        &data.device_response,
        Some(data.name.clone()),
        replies,
        at,
    )?;
    let mode = StoreMode::TwoFactorRegistration { provider_id, original_name: data.name.clone() };
    let (_done, at) = finish_ceremony_registration(
        mode,
        user_id,
        config,
        registration,
        now_ms,
        replies,
        at,
    )?;
    generate_recovery_code_for_user(user_id, replies, at)
}

/// `POST /api/two-factor/webauthn`: registers a security key.
pub open spec fn activate_webauthn_script(
    config: PasskeyConfigModel,
    user_id: Seq<char>,
    data: WebauthnRegisterDataModel,
    replies: Seq<ReplyModel>,
) -> ProgressModel<JsonModel> {
    chain(
        authorize_script(user_id, data.credentials(), replies),
        |user: UserModel, at: int|
            match data.id.as_i32() {
                Err(error) => Err(StopModel::Fail(error)),
                Ok(provider_id) => chain(
                    twofactor_provider_id_exists_script(user_id, provider_id, replies, at),
                    |taken: bool, at: int|
                        if taken {
                            Err(
                                StopModel::Fail(
                                    AppErrorModel::BadRequest(
                                        "WebAuthn credential id already exists"@,
                                    ),
                                ),
                            )
                        } else {
                            chain(
                                register_key_script(
                                    config,
                                    user_id,
                                    provider_id,
                                    data,
                                    replies,
                                    at,
                                ),
                                |done: (), at: int|
                                    answer_keys_script(
                                        user_id,
                                        true,
                                        "twoFactorU2f"@,
                                        replies,
                                        at,
                                    ),
                            )
                        },
                ),
            },
    )
}

/// Registers a security key at a relying party, under a number that the caller chooses and that
/// must be free.
pub fn activate_webauthn_with(
    config: &PasskeyConfig,
    user_id: &str,
    data: &WebauthnRegisterData,
    replies: &Vec<Reply>,
) -> (result: Progress<Json>)
    ensures
        progress(result) == activate_webauthn_script(
            config.deep_view(),
            user_id@,
            data.deep_view(),
            replies.deep_view(),
        ),
{
    let (_user, at) = authorize(
        user_id,
        &password_or_otp(&data.master_password_hash, &data.otp),
        replies,
    )?;
    let provider_id: i32 = match data.id.try_i32() {
        Ok(provider_id) => provider_id,
        Err(error) => {
            return Err(Stop::Fail(error));
        },
    };
    let (taken, at) = twofactor_provider_id_exists(user_id, provider_id, replies, at)?;
    if taken {
        return Err(Stop::Fail(bad_request("WebAuthn credential id already exists")));
    }
    let (_done, at) = register_key(config, user_id, provider_id, data, replies, at)?;
    answer_keys(user_id, true, "twoFactorU2f", replies, at)
}

/// `POST` or `PUT /api/two-factor/webauthn`: registers a security key, and gives the caller a
/// recovery code unless there is one.
pub fn activate_webauthn(
    base_url: &str,
    user_id: &str,
    data: &WebauthnRegisterData,
    replies: &Vec<Reply>,
) -> (result: Progress<Json>)
    ensures
        progress(result) == activate_webauthn_script(
            config_for(url_host(base_url@), base_url@),
            user_id@,
            data.deep_view(),
            replies.deep_view(),
        ),
{
    let config = build_passkey_config(base_url);
    activate_webauthn_with(&config, user_id, data, replies)
}

/// The body of a request to delete a security key.
#[derive(Debug)]
pub struct WebauthnDeleteData {
    pub master_password_hash: Option<String>,
    pub otp: Option<String>,
    /// The number of the key.
    pub id: NumberOrString,
}

/// Model of [`WebauthnDeleteData`].
pub struct WebauthnDeleteDataModel {
    pub master_password_hash: Option<Seq<char>>,
    pub otp: Option<Seq<char>>,
    pub id: NumberOrStringModel,
}

impl WebauthnDeleteDataModel {
    /// What proves that the caller owns the account.
    pub open spec fn credentials(self) -> PasswordOrOtpDataModel {
        PasswordOrOtpDataModel { master_password_hash: self.master_password_hash, otp: self.otp }
    }
}

impl DeepView for WebauthnDeleteData {
    type V = WebauthnDeleteDataModel;

    open spec fn deep_view(&self) -> WebauthnDeleteDataModel {
        WebauthnDeleteDataModel {
            master_password_hash: self.master_password_hash.deep_view(),
            otp: self.otp.deep_view(),
            id: self.id.deep_view(),
        }
    }
}

/// `DELETE /api/two-factor/webauthn`: deletes a security key.
pub open spec fn delete_webauthn_script(
    user_id: Seq<char>,
    data: WebauthnDeleteDataModel,
    replies: Seq<ReplyModel>,
) -> ProgressModel<JsonModel> {
    chain(
        authorize_script(user_id, data.credentials(), replies),
        |user: UserModel, at: int|
            match data.id.as_i32() {
                Err(error) => Err(StopModel::Fail(error)),
                Ok(provider_id) => chain(
                    delete_twofactor_credential_by_provider_id_script(
                        user_id,
                        provider_id,
                        replies,
                        at,
                    ),
                    |deleted: bool, at: int|
                        if !deleted {
                            Err(
                                StopModel::Fail(
                                    AppErrorModel::BadRequest("Invalid credential id"@),
                                ),
                            )
                        } else {
                            chain(
                                clear_recovery_if_no_twofactor_script(user_id, replies, at),
                                |done: (), at: int|
                                    answer_keys_script(
                                        user_id,
                                        false,
                                        "twoFactorU2f"@,
                                        replies,
                                        at,
                                    ),
                            )
                        },
                ),
            },
    )
}

/// `DELETE /api/two-factor/webauthn`: deletes a security key by its number, and takes the recovery
/// code away if no real second factor is left.
pub fn delete_webauthn(user_id: &str, data: &WebauthnDeleteData, replies: &Vec<Reply>) -> (result:
    Progress<Json>)
    ensures
        progress(result) == delete_webauthn_script(user_id@, data.deep_view(), replies.deep_view()),
{
    let (_user, at) = authorize(
        user_id,
        &password_or_otp(&data.master_password_hash, &data.otp),
        replies,
    )?;
    let provider_id: i32 = match data.id.try_i32() {
        Ok(provider_id) => provider_id,
        Err(error) => {
            return Err(Stop::Fail(error));
        },
    };
    let (deleted, at) = delete_twofactor_credential_by_provider_id(
        user_id,
        provider_id,
        replies,
        at,
    )?;
    if !deleted {
        return Err(Stop::Fail(bad_request("Invalid credential id")));
    }
    let (_done, at) = clear_recovery_if_no_twofactor(user_id, replies, at)?;
    answer_keys(user_id, false, "twoFactorU2f", replies, at)
}

// Laws.

/// No endpoint that takes a password or one-time code does anything before it was checked.
pub proof fn law_endpoints_are_guarded(
    config: PasskeyConfigModel,
    user_id: Seq<char>,
    email: Seq<char>,
    data: PasswordOrOtpDataModel,
    enable: EnableAuthenticatorDataModel,
    disable: DisableTwoFactorDataModel,
    register: WebauthnRegisterDataModel,
    delete: WebauthnDeleteDataModel,
    key: Seq<char>,
    replies: Seq<ReplyModel>,
)
    ensures
        guarded(get_authenticator_script(user_id, data, replies), user_id, data, replies),
        guarded(
            activate_authenticator_script(user_id, enable, key, replies),
            user_id,
            enable.credentials(),
            replies,
        ),
        guarded(
            disable_twofactor_script(user_id, disable, replies),
            user_id,
            disable.credentials(),
            replies,
        ),
        guarded(get_recover_script(user_id, data, replies), user_id, data, replies),
        guarded(get_webauthn_twofactor_script(user_id, data, replies), user_id, data, replies),
        guarded(
            get_webauthn_challenge_script(config, user_id, email, data, replies),
            user_id,
            data,
            replies,
        ),
        guarded(
            activate_webauthn_script(config, user_id, register, replies),
            user_id,
            register.credentials(),
            replies,
        ),
        guarded(
            delete_webauthn_script(user_id, delete, replies),
            user_id,
            delete.credentials(),
            replies,
        ),
{
}

/// Turning off one-time passwords by their secret does nothing before the password or one-time
/// code was checked. A request for another type is refused at once.
pub proof fn law_disabling_by_key_is_guarded(
    user_id: Seq<char>,
    data: DisableAuthenticatorDataModel,
    key: Seq<char>,
    replies: Seq<ReplyModel>,
)
    ensures
        ({
            let result = disable_authenticator_script(user_id, data, key, replies);
            if data.type_ == TwoFactorType::Authenticator.number() {
                guarded(result, user_id, data.credentials(), replies)
            } else {
                result == Err::<(JsonModel, int), StopModel>(
                    StopModel::Fail(AppErrorModel::BadRequest("Invalid two factor type"@)),
                )
            }
        }),
{
}

/// The list of provider numbers holds the number of every real second factor that is on and no
/// other, each once and in increasing order; it is empty exactly where none is on.
pub proof fn law_provider_ids(twofactors: Seq<TwoFactorModel>, id: i32)
    ensures
        forall|i: int, j: int|
            0 <= i < j < provider_ids(twofactors).len() ==> provider_ids(twofactors)[i]
                < provider_ids(twofactors)[j],
        provider_ids(twofactors).contains(id) <==> exists|i: int|
            {
                &&& 0 <= i < twofactors.len()
                &&& (#[trigger] twofactors[i]).enabled
                &&& twofactors[i].atype == id
                &&& id == TwoFactorType::Authenticator.number() || id
                    == TwoFactorType::Webauthn.number()
            },
        provider_ids(twofactors).len() == 0 <==> !twofactor_enabled(twofactors),
{
    let ids = provider_ids(twofactors);
    let first = active_id(twofactors, TwoFactorType::Authenticator);
    let second = active_id(twofactors, TwoFactorType::Webauthn);
    if ids.contains(id) {
        let at = choose|at: int| 0 <= at < ids.len() && ids[at] == id;
        let type_ = if at < first.len() {
            TwoFactorType::Authenticator
        } else {
            TwoFactorType::Webauthn
        };
        assert(has_active(twofactors, type_));
        let i = choose|i: int|
            0 <= i < twofactors.len() && is_active(#[trigger] twofactors[i], type_);
        assert(twofactors[i].enabled && twofactors[i].atype == id);
    }
    if has_active(twofactors, TwoFactorType::Authenticator) {
        assert(ids[0] == TwoFactorType::Authenticator.number());
    }
    if has_active(twofactors, TwoFactorType::Webauthn) {
        assert(ids[first.len() as int] == TwoFactorType::Webauthn.number());
    }
    if exists|i: int|
        0 <= i < twofactors.len() && (#[trigger] twofactors[i]).enabled && twofactors[i].atype == id
            && (id == TwoFactorType::Authenticator.number() || id
            == TwoFactorType::Webauthn.number()) {
        let i = choose|i: int|
            0 <= i < twofactors.len() && (#[trigger] twofactors[i]).enabled && twofactors[i].atype
                == id;
        if id == TwoFactorType::Authenticator.number() {
            assert(is_active(twofactors[i], TwoFactorType::Authenticator));
        } else {
            assert(is_active(twofactors[i], TwoFactorType::Webauthn));
        }
    }
}

/// A user with security keys has a real second factor, and security keys never hide another one.
pub proof fn law_security_keys_count(twofactors: Seq<TwoFactorModel>, user_id: Seq<char>)
    ensures
        twofactor_enabled(all_twofactors(twofactors, user_id, true)),
        provider_ids(all_twofactors(twofactors, user_id, true)).contains(
            TwoFactorType::Webauthn.number(),
        ),
        has_active(all_twofactors(twofactors, user_id, true), TwoFactorType::Authenticator)
            == has_active(twofactors, TwoFactorType::Authenticator),
{
    let all = all_twofactors(twofactors, user_id, true);
    assert(is_active(all[twofactors.len() as int], TwoFactorType::Webauthn));
    assert(has_active(all, TwoFactorType::Webauthn));
    let first = active_id(all, TwoFactorType::Authenticator);
    assert(provider_ids(all)[first.len() as int] == TwoFactorType::Webauthn.number());
    if has_active(twofactors, TwoFactorType::Authenticator) {
        let i = choose|i: int|
            0 <= i < twofactors.len() && is_active(
                #[trigger] twofactors[i],
                TwoFactorType::Authenticator,
            );
        assert(is_active(all[i], TwoFactorType::Authenticator));
    }
    if has_active(all, TwoFactorType::Authenticator) {
        let i = choose|i: int|
            0 <= i < all.len() && is_active(#[trigger] all[i], TwoFactorType::Authenticator);
        assert(is_active(twofactors[i], TwoFactorType::Authenticator));
    }
}

/// A recovery code is made only for a user who has none, and is never written over: what is kept is
/// the code that was made just before.
pub proof fn law_recovery_code_is_made_once(user_id: Seq<char>, replies: Seq<ReplyModel>, at: int)
    requires
        0 <= at,
    ensures
        ({
            let result = generate_recovery_code_for_user_script(user_id, replies, at);
            &&& at < replies.len() && (
                replies[at] matches ReplyModel::RecoveryCode(Ok(Some(Some(_))))
            )
                ==> result == Ok::<((), int), StopModel>(((), at + 1))
            &&& result matches Err(StopModel::Ask(ActionModel::GenerateRecoveryCode)) ==> at
                < replies.len() && replies[at] == ReplyModel::RecoveryCode(Ok(Some(None)))
            &&& result matches Err(StopModel::Ask(ActionModel::Execute { statement })) ==> {
                &&& at + 1 < replies.len()
                &&& replies[at] == ReplyModel::RecoveryCode(Ok(Some(None)))
                &&& replies[at + 1] matches ReplyModel::Generated(Ok(code))
                &&& statement == set_recovery_code(user_id, code)
            }
        }),
{
}

/// The recovery code is taken away exactly where no real second factor is left, neither one-time
/// passwords nor security keys.
pub proof fn law_recovery_code_goes_with_the_last_factor(
    user_id: Seq<char>,
    replies: Seq<ReplyModel>,
    at: int,
    twofactors: Seq<TwoFactorModel>,
    security_keys: usize,
)
    requires
        0 <= at,
        replies.len() == at + 1,
        replies[at] == ReplyModel::TwoFactors(Ok((twofactors, security_keys))),
    ensures
        clear_recovery_if_no_twofactor_script(user_id, replies, at) == if security_keys > 0
            || has_active(twofactors, TwoFactorType::Authenticator) || has_active(
            twofactors,
            TwoFactorType::Webauthn,
        ) {
            Ok::<((), int), StopModel>(((), at + 1))
        } else {
            Err(StopModel::Ask(ActionModel::Execute { statement: clear_recovery_code(user_id) }))
        },
{
    if security_keys > 0 {
        law_security_keys_count(twofactors, user_id);
    }
}

/// One-time passwords are turned on only with a secret of 20 bytes and a password for it of a time
/// step that no earlier one used. The old ones go before the new ones come, and those remember the
/// time step.
pub proof fn law_activation_is_checked(
    user_id: Seq<char>,
    data: EnableAuthenticatorDataModel,
    key: Seq<char>,
    replies: Seq<ReplyModel>,
)
    ensures
        activate_authenticator_script(user_id, data, key, replies) matches Err(
            StopModel::Ask(ActionModel::ValidateTotp { token, key: tried, last_used }),
        ) ==> {
            &&& replies.len() == 4
            &&& replies[3] matches ReplyModel::TwoFactor(Ok(existing))
            &&& token == data.token
            &&& tried == key
            &&& last_used == last_step(existing)
        },
        activate_authenticator_script(user_id, data, key, replies) matches Err(
            StopModel::Ask(ActionModel::NewTwoFactor { user_id: owner, type_, secret }),
        ) ==> owner == user_id && type_ == TwoFactorType::Authenticator && secret == key,
        activate_authenticator_script(user_id, data, key, replies) matches Err(
            StopModel::Ask(ActionModel::Execute { statement }),
        ) ==> {
            &&& replies.len() >= 5
            &&& replies[2] matches ReplyModel::Decoded(Ok(secret))
            &&& secret.len() == 20
            &&& replies[4] matches ReplyModel::TimeStep(Ok(step))
            &&& if replies.len() == 5 {
                statement == delete_twofactor(user_id, TwoFactorType::Authenticator.number())
            } else if replies.len() == 7 {
                &&& replies[5] matches ReplyModel::Executed(Ok(_))
                &&& replies[6] matches ReplyModel::NewTwoFactor(twofactor)
                &&& statement == insert_twofactor(TwoFactorModel { last_used: step, ..twofactor })
            } else {
                &&& replies.len() == 10
                &&& replies[7] matches ReplyModel::Executed(Ok(_))
                &&& replies[9] matches ReplyModel::Generated(Ok(code))
                &&& statement == set_recovery_code(user_id, code)
            }
        },
{
}

/// One-time passwords are turned off by their secret only where the secret is the one that is
/// stored, and then just those go.
pub proof fn law_disabling_needs_the_key(
    user_id: Seq<char>,
    data: DisableAuthenticatorDataModel,
    key: Seq<char>,
    replies: Seq<ReplyModel>,
)
    ensures
        disable_authenticator_script(user_id, data, key, replies) matches Err(
            StopModel::Ask(ActionModel::Execute { statement }),
        ) ==> {
            &&& replies.len() >= 4
            &&& replies[2] matches ReplyModel::TwoFactor(Ok(Some(twofactor)))
            &&& replies[3] == ReplyModel::Same(true)
            &&& statement == if replies.len() == 4 {
                delete_twofactor_row(twofactor.uuid)
            } else {
                clear_recovery_code(user_id)
            }
        },
        disable_authenticator_script(user_id, data, key, replies) matches Err(
            StopModel::Ask(ActionModel::CompareSecrets { stored, given }),
        ) ==> {
            &&& replies[2] matches ReplyModel::TwoFactor(Ok(Some(twofactor)))
            &&& stored == twofactor.data
            &&& given == key
        },
{
}

/// A security key is registered only under a number that the caller chose and that was free, and
/// under the name that the caller gave.
pub proof fn law_registration_takes_a_free_number(
    config: PasskeyConfigModel,
    user_id: Seq<char>,
    data: WebauthnRegisterDataModel,
    replies: Seq<ReplyModel>,
)
    ensures
        activate_webauthn_script(config, user_id, data, replies) matches Err(
            StopModel::Ask(
                ActionModel::FinishRegistration {
                    mode,
                    user_id: registrant,
                    config: checked,
                    attestation,
                    now_ms,
                },
            ),
        ) ==> {
            &&& replies.len() >= 5
            &&& replies[2] == ReplyModel::Presence(Ok(false))
            &&& replies[3] == ReplyModel::Time(now_ms)
            &&& data.id.as_i32() matches Ok(provider_id)
            &&& mode == (StoreModeModel::TwoFactorRegistration {
                provider_id,
                original_name: data.name,
            })
            &&& registrant == user_id
            &&& attestation.name == Some(data.name)
            &&& checked.rp_id == config.rp_id
            &&& checked.origin == config.origin || allowed_origin(config.origin, checked.origin)
        },
{
}

/// Turning off security keys touches no other second factor, and turning off another one touches
/// no security key.
pub proof fn law_disabling_keeps_to_its_type(
    user_id: Seq<char>,
    data: DisableTwoFactorDataModel,
    replies: Seq<ReplyModel>,
)
    requires
        replies.len() == 2,
        vouched(replies),
    ensures
        disable_twofactor_script(user_id, data, replies) == Err::<(JsonModel, int), StopModel>(
            StopModel::Ask(
                ActionModel::Execute {
                    statement: if data.type_ == TwoFactorType::Webauthn.number() {
                        delete_security_keys(user_id)
                    } else {
                        delete_twofactor(user_id, data.type_)
                    },
                },
            ),
        ),
{
}

/// A number that names no security key of the caller is refused, and the recovery code stays.
pub proof fn law_unknown_number_changes_nothing(
    user_id: Seq<char>,
    data: WebauthnDeleteDataModel,
    replies: Seq<ReplyModel>,
    changed: Option<bool>,
)
    requires
        replies.len() >= 3,
        vouched(replies),
        data.id.as_i32() is Ok,
        replies[2] == ReplyModel::Executed(Ok(changed)),
        changed != Some(true),
    ensures
        delete_webauthn_script(user_id, data, replies) == Err::<(JsonModel, int), StopModel>(
            StopModel::Fail(AppErrorModel::BadRequest("Invalid credential id"@)),
        ),
{
}

/// One-time passwords are on once every step went well, whether or not there were some before. The
/// answer tells the secret.
pub proof fn law_activation_succeeds(
    user_id: Seq<char>,
    data: EnableAuthenticatorDataModel,
    key: Seq<char>,
    secret: Seq<u8>,
    existing: Option<TwoFactorModel>,
    step: i64,
    twofactor: TwoFactorModel,
    code: Seq<char>,
    replies: Seq<ReplyModel>,
)
    requires
        replies.len() == 9,
        vouched(replies),
        secret.len() == 20,
        replies[2] == ReplyModel::Decoded(Ok(secret)),
        replies[3] == ReplyModel::TwoFactor(Ok(existing)),
        replies[4] == ReplyModel::TimeStep(Ok(step)),
        replies[5] matches ReplyModel::Executed(Ok(_)),
        replies[6] == ReplyModel::NewTwoFactor(twofactor),
        replies[7] matches ReplyModel::Executed(Ok(_)),
        replies[8] == ReplyModel::RecoveryCode(Ok(Some(Some(code)))),
    ensures
        activate_authenticator_script(user_id, data, key, replies) == Ok::<
            (JsonModel, int),
            StopModel,
        >((authenticator_answer(true, key), 9)),
{
}

/// A security key is registered once every step went well. The answer lists every security key of
/// the user.
pub proof fn law_registration_succeeds(
    config: PasskeyConfigModel,
    user_id: Seq<char>,
    data: WebauthnRegisterDataModel,
    payload: RegistrationPayloadModel,
    origin: Option<Seq<char>>,
    code: Seq<char>,
    rows: Seq<WebauthnCredentialRowModel>,
    replies: Seq<ReplyModel>,
)
    requires
        replies.len() == 9,
        vouched(replies),
        data.id.as_i32() is Ok,
        replies[2] == ReplyModel::Presence(Ok(false)),
        replies[3] matches ReplyModel::Time(_),
        replies[4] == ReplyModel::Registration(Ok(payload)),
        payload.normalize() is Some,
        replies[5] == ReplyModel::Origin(origin),
        replies[6] == ReplyModel::RegistrationFinished(Ok(())),
        replies[7] == ReplyModel::RecoveryCode(Ok(Some(Some(code)))),
        replies[8] == ReplyModel::SecurityKeys(Ok(rows)),
        all_numbered(rows),
    ensures
        activate_webauthn_script(config, user_id, data, replies) == Ok::<
            (JsonModel, int),
            StopModel,
        >((keys_answer(true, keys_json(rows)->Ok_0, "twoFactorU2f"@), 9)),
{
    law_normalized_decodes(payload.client_data_json);
}

} // verus!
