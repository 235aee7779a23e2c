//! Login passkeys.
use vstd::prelude::*;
use crate::error::{bad_request, AppError, AppErrorModel};
use crate::flow::{
    chain, progress, read_clock, read_clock_script, ActionModel, Progress, ProgressModel, Reply,
    ReplyModel, Rows, Stop, StopModel,
};
use crate::handlers::{authorize, authorize_script, display_name, displayed_name, guarded};
use crate::json::{Json, JsonModel};
use crate::models::{PasswordOrOtpData, PasswordOrOtpDataModel, UserModel};
use crate::text::{as_optional_str, same_text};
use crate::types::{
    LoginResponseModel, PasskeyConfig, PasskeyConfigModel,
    PublicKeyCredentialCreationOptionsModel, PublicKeyCredentialRequestOptionsModel,
    RegistrationResponse,
};
use crate::webauthn::ceremony::{
    finish_registration_script, start_login_assertion_script, ToBitwardenJson,
};
use crate::webauthn::compat::{
    named_registration, parsed_registration, read_registration, read_registration_script,
    receive_assertion, receive_assertion_script, received_assertion, AssertionPayloadModel,
    RegistrationPayloadModel, RegistrationResponseCompatModel,
};
use crate::webauthn::login::{
    finish_login_assertion, finish_login_assertion_script, finish_login_registration,
    start_login_assertion, start_login_registration, start_login_registration_script,
};
use crate::webauthn::prf::{
    create_prf_credential, create_prf_credential_script, create_prf_credential_statement,
    get_login_row_id_by_credential_id, get_login_row_id_by_credential_id_script,
    get_login_row_id_by_credential_id_statement, list_login_credentials_with_prf,
    list_login_credentials_with_prf_script, update_prf_keys, update_prf_keys_script,
    update_prf_keys_statement, LoginCredentialWithPrfModel,
};
use crate::webauthn::store::{
    delete_login_credential, delete_login_credential_script, StoreMode, StoreModeModel,
};
use crate::webauthn::{build_passkey_config, config_for, url_host};

verus! {

/// Login passkeys, as a client is told of them.
pub open spec fn credentials_answer(credentials: Seq<LoginCredentialWithPrfModel>) -> JsonModel {
    JsonModel::object().with("object"@, JsonModel::Text("list"@)).with(
        "data"@,
        JsonModel::List(Seq::new(credentials.len(), |i: int| credentials[i].response())),
    ).with("continuationToken"@, JsonModel::Null)
}

/// The end of an endpoint that answers with the login passkeys of a user.
pub open spec fn answer_credentials_script(
    user_id: Seq<char>,
    replies: Seq<ReplyModel>,
    at: int,
) -> ProgressModel<JsonModel> {
    chain(
        list_login_credentials_with_prf_script(user_id, replies, at),
        |credentials: Seq<LoginCredentialWithPrfModel>, at: int|
            Ok((credentials_answer(credentials), at)),
    )
}

/// The end of an endpoint that answers with the login passkeys of a user.
fn answer_credentials(user_id: &str, replies: &Vec<Reply>, at: usize) -> (result: Progress<Json>)
    ensures
        progress(result) == answer_credentials_script(user_id@, replies.deep_view(), at as int),
{
    let (credentials, at) = list_login_credentials_with_prf(user_id, replies, at)?;
    let ghost models = credentials.deep_view();
    let mut items: Vec<Json> = Vec::new();
    for i in 0..credentials.len()
        invariant
            models == credentials.deep_view(),
            items@.len() == i,
            forall|j: int| 0 <= j < i ==> (#[trigger] items@[j]).model() == models[j].response(),
    {
        items.push(credentials[i].to_response_json());
    }
    let data = Json::List(items);
    assert(data.model()->List_0 =~= Seq::new(models.len(), |i: int| models[i].response()));
    let mut answer = Json::object();
    answer.set("object", Json::text("list"));
    answer.set("data", data);
    answer.set("continuationToken", Json::Null);
    Ok((answer, at))
}

/// `GET /api/webauthn`: the login passkeys of the caller, and whether they can unlock the vault.
pub fn get_webauthn_credentials(user_id: &str, replies: &Vec<Reply>) -> (result: Progress<Json>)
    ensures
        progress(result) == answer_credentials_script(user_id@, replies.deep_view(), 0),
{
    answer_credentials(user_id, replies, 0)
}

/// Options for a ceremony, as a client is told of them.
pub open spec fn options_answer(options: JsonModel, object: Seq<char>) -> JsonModel {
    JsonModel::object().with("options"@, options).with("token"@, JsonModel::Null).with(
        "object"@,
        JsonModel::Text(object),
    )
}

fn answer_options(options: Json, object: &str) -> (answer: Json)
    ensures
        answer.deep_view() == options_answer(options.deep_view(), object@),
{
    let mut answer = Json::object();
    answer.set("options", options);
    answer.set("token", Json::Null);
    answer.set("object", Json::text(object));
    answer
}

/// `POST /api/webauthn/attestation-options`: options for registering a login passkey.
pub open spec fn post_attestation_options_script(
    config: PasskeyConfigModel,
    user_id: Seq<char>,
    email: Seq<char>,
    data: PasswordOrOtpDataModel,
    replies: Seq<ReplyModel>,
) -> ProgressModel<JsonModel> {
    chain(
        authorize_script(user_id, data, replies),
        |user: UserModel, at: int|
            chain(
                read_clock_script(replies, at),
                |now_ms: i64, at: int|
                    chain(
                        start_login_registration_script(
                            StoreModeModel::Login,
                            user_id,
                            email,
                            display_name(user, email),
                            config,
                            now_ms,
                            replies,
                            at,
                        ),
                        |options: PublicKeyCredentialCreationOptionsModel, at: int|
                            Ok(
                                (
                                    options_answer(
                                        options.json(),
                                        "webAuthnCredentialCreateOptions"@,
                                    ),
                                    at,
                                ),
                            ),
                    ),
            ),
    )
}

/// Options for registering a login passkey at a relying party.
pub fn post_attestation_options_with(
    config: &PasskeyConfig,
    user_id: &str,
    email: &str,
    data: &PasswordOrOtpData,
    replies: &Vec<Reply>,
) -> (result: Progress<Json>)
    ensures
        progress(result) == post_attestation_options_script(
            config.deep_view(),
            user_id@,
            email@,
            data.deep_view(),
            replies.deep_view(),
        ),
{
    let (user, at) = authorize(user_id, data, replies)?;
    let (now_ms, at) = read_clock(replies, at)?;
    let (options, at) = start_login_registration(
        StoreMode::Login,
        user_id,
        email,
        displayed_name(user, email),
        config,
        now_ms,
        replies,
        at,
    )?;
    Ok((answer_options(options.to_bitwarden_json(), "webAuthnCredentialCreateOptions"), at))
}

/// `POST /api/webauthn/attestation-options`: options for registering a login passkey.
pub fn post_attestation_options(
    base_url: &str,
    user_id: &str,
    email: &str,
    data: &PasswordOrOtpData,
    replies: &Vec<Reply>,
) -> (result: Progress<Json>)
    ensures
        progress(result) == post_attestation_options_script(
            config_for(url_host(base_url@), base_url@),
            user_id@,
            email@,
            data.deep_view(),
            replies.deep_view(),
        ),
{
    let config = build_passkey_config(base_url);
    post_attestation_options_with(&config, user_id, email, data, replies)
}

/// The body of a request to register a login passkey.
#[derive(Debug)]
pub struct CreateLoginCredentialRequest {
    pub device_response: serde_json::Value,
    pub name: String,
    pub token: Option<String>,
    pub supports_prf: Option<bool>,
    pub encrypted_user_key: Option<String>,
    pub encrypted_public_key: Option<String>,
    pub encrypted_private_key: Option<String>,
}

/// Model of [`CreateLoginCredentialRequest`].
pub struct CreateLoginCredentialRequestModel {
    pub device_response: serde_json::Value,
    pub name: Seq<char>,
    pub token: Option<Seq<char>>,
    pub supports_prf: Option<bool>,
    pub encrypted_user_key: Option<Seq<char>>,
    pub encrypted_public_key: Option<Seq<char>>,
    pub encrypted_private_key: Option<Seq<char>>,
}

impl DeepView for CreateLoginCredentialRequest {
    type V = CreateLoginCredentialRequestModel;

    open spec fn deep_view(&self) -> CreateLoginCredentialRequestModel {
        CreateLoginCredentialRequestModel {
            device_response: self.device_response,
            name: self.name@,
            token: self.token.deep_view(),
            supports_prf: self.supports_prf,
            encrypted_user_key: self.encrypted_user_key.deep_view(),
            encrypted_public_key: self.encrypted_public_key.deep_view(),
            encrypted_private_key: self.encrypted_private_key.deep_view(),
        }
    }
}

/// A key, if it is to be kept.
pub open spec fn if_supported(supports_prf: bool, key: Option<Seq<char>>) -> Option<Seq<char>> {
    if supports_prf {
        key
    } else {
        None
    }
}

/// Keeps the PRF keys of a login passkey that was registered just now, and answers with all login
/// passkeys of the user.
pub open spec fn keep_prf_keys_script(
    user_id: Seq<char>,
    credential_id: Seq<char>,
    data: CreateLoginCredentialRequestModel,
    now_ms: i64,
    replies: Seq<ReplyModel>,
    at: int,
) -> ProgressModel<JsonModel> {
    chain(
        get_login_row_id_by_credential_id_script(credential_id, replies, at),
        |row_id: Option<Seq<char>>, at: int|
            match row_id {
                None => Err(StopModel::Fail(AppErrorModel::Internal)),
                Some(row_id) => chain(
                    create_prf_credential_script(
                        row_id,
                        data.supports_prf == Some(true),
                        if_supported(data.supports_prf == Some(true), data.encrypted_user_key),
                        if_supported(data.supports_prf == Some(true), data.encrypted_public_key),
                        if_supported(data.supports_prf == Some(true), data.encrypted_private_key),
                        now_ms,
                        replies,
                        at,
                    ),
                    |done: (), at: int| answer_credentials_script(user_id, replies, at),
                ),
            },
    )
}

/// The text of a key, if it is to be kept.
fn key_if_supported(supports_prf: bool, key: &Option<String>) -> (kept: Option<&str>)
    ensures
        kept.deep_view() == if_supported(supports_prf, key.deep_view()),
{
    if supports_prf {
        as_optional_str(key)
    } else {
        None
    }
}

/// Keeps the PRF keys of a login passkey that was registered just now, and answers with all login
/// passkeys of the user. A passkey without the extension has no keys to keep.
fn keep_prf_keys(
    user_id: &str,
    credential_id: &str,
    data: &CreateLoginCredentialRequest,
    now_ms: i64,
    replies: &Vec<Reply>,
    at: usize,
) -> (result: Progress<Json>)
    ensures
        progress(result) == keep_prf_keys_script(
            user_id@,
            credential_id@,
            data.deep_view(),
            now_ms,
            replies.deep_view(),
            at as int,
        ),
{
    let (row_id, at) = get_login_row_id_by_credential_id(credential_id, replies, at)?;
    let row_id = match row_id {
        Some(row_id) => row_id,
        None => {
            return Err(Stop::Fail(AppError::Internal));
        },
    };
    let supports_prf = match data.supports_prf {
        Some(value) => value,
        None => false,
    };
    let (_done, at) = create_prf_credential(
        row_id.as_str(),
        supports_prf,
        key_if_supported(supports_prf, &data.encrypted_user_key),
        key_if_supported(supports_prf, &data.encrypted_public_key),
        key_if_supported(supports_prf, &data.encrypted_private_key),
        now_ms,
        replies,
        at,
    )?;
    answer_credentials(user_id, replies, at)
}

/// `POST /api/webauthn`: registers a login passkey in the row `row_id`, and keeps its PRF keys if
/// it supports PRF.
pub open spec fn post_webauthn_credential_script(
    config: PasskeyConfigModel,
    row_id: Seq<char>,
    user_id: Seq<char>,
    data: CreateLoginCredentialRequestModel,
    replies: Seq<ReplyModel>,
) -> ProgressModel<JsonModel> {
    chain(
        read_clock_script(replies, 0),
        |now_ms: i64, at: int|
            chain(
                read_registration_script(data.device_response, replies, at),
                |compat: RegistrationResponseCompatModel, at: int|
                    chain(
                        finish_registration_script(
                            StoreModeModel::LoginRegistration { row_id, original_name: data.name },
                            user_id,
                            config,
                            named_registration(compat, Some(data.name)),
                            now_ms,
                            replies,
                            at,
                        ),
                        |done: (), at: int|
                            keep_prf_keys_script(user_id, compat.id, data, now_ms, replies, at),
                    ),
            ),
    )
}

/// Registers a login passkey at a relying party, in the row `row_id`, and keeps its PRF keys.
pub fn post_webauthn_credential_with(
    config: &PasskeyConfig,
    row_id: &str,
    user_id: &str,
    data: &CreateLoginCredentialRequest,
    replies: &Vec<Reply>,
) -> (result: Progress<Json>)
    ensures
        progress(result) == post_webauthn_credential_script(
            config.deep_view(),
            row_id@,
            user_id@,
            data.deep_view(),
            replies.deep_view(),
        ),
{
    let (now_ms, at) = read_clock(replies, 0)?;
    let (compat, at) = read_registration(&data.device_response, replies, at)?;
    let mut compat = compat;
    compat.name = Some(data.name.clone());
    let credential_id = compat.id.clone();
    let mode = StoreMode::LoginRegistration {
        row_id: row_id.to_string(),
        original_name: data.name.clone(),
    };
    let (_done, at) = finish_login_registration(
        mode,
        user_id,
        config,
        RegistrationResponse::from(compat),
        now_ms,
        replies,
        at,
    )?;
    keep_prf_keys(user_id, credential_id.as_str(), data, now_ms, replies, at)
}

/// `POST /api/webauthn`: registers a login passkey, and keeps its PRF keys if it supports PRF.
/// `row_id` is a fresh id for its row, the same for every call of one request.
pub fn post_webauthn_credential(
    base_url: &str,
    row_id: &str,
    user_id: &str,
    data: &CreateLoginCredentialRequest,
    replies: &Vec<Reply>,
) -> (result: Progress<Json>)
    ensures
        progress(result) == post_webauthn_credential_script(
            config_for(url_host(base_url@), base_url@),
            row_id@,
            user_id@,
            data.deep_view(),
            replies.deep_view(),
        ),
{
    let config = build_passkey_config(base_url);
    post_webauthn_credential_with(&config, row_id, user_id, data, replies)
}

/// `POST /api/webauthn/assertion-options`: options for using a login passkey whose PRF keys are to
/// change.
pub open spec fn post_assertion_options_script(
    config: PasskeyConfigModel,
    user_id: Seq<char>,
    data: PasswordOrOtpDataModel,
    replies: Seq<ReplyModel>,
) -> ProgressModel<JsonModel> {
    chain(
        authorize_script(user_id, data, replies),
        |user: UserModel, at: int|
            chain(
                read_clock_script(replies, at),
                |now_ms: i64, at: int|
                    chain(
                        start_login_assertion_script(
                            StoreModeModel::Login,
                            config,
                            now_ms,
                            replies,
                            at,
                        ),
                        |options: PublicKeyCredentialRequestOptionsModel, at: int|
                            Ok(
                                (
                                    options_answer(
                                        options.json(),
                                        "webAuthnLoginAssertionOptions"@,
                                    ),
                                    at,
                                ),
                            ),
                    ),
            ),
    )
}

/// Options for using a login passkey at a relying party.
pub fn post_assertion_options_with(
    config: &PasskeyConfig,
    user_id: &str,
    data: &PasswordOrOtpData,
    replies: &Vec<Reply>,
) -> (result: Progress<Json>)
    ensures
        progress(result) == post_assertion_options_script(
            config.deep_view(),
            user_id@,
            data.deep_view(),
            replies.deep_view(),
        ),
{
    let (_user, at) = authorize(user_id, data, replies)?;
    let (now_ms, at) = read_clock(replies, at)?;
    let (options, at) = start_login_assertion(StoreMode::Login, config, now_ms, replies, at)?;
    Ok((answer_options(options.to_bitwarden_json(), "webAuthnLoginAssertionOptions"), at))
}

/// `POST /api/webauthn/assertion-options`: options for using a login passkey whose PRF keys are to
/// change.
pub fn post_assertion_options(
    base_url: &str,
    user_id: &str,
    data: &PasswordOrOtpData,
    replies: &Vec<Reply>,
) -> (result: Progress<Json>)
    ensures
        progress(result) == post_assertion_options_script(
            config_for(url_host(base_url@), base_url@),
            user_id@,
            data.deep_view(),
            replies.deep_view(),
        ),
{
    let config = build_passkey_config(base_url);
    post_assertion_options_with(&config, user_id, data, replies)
}

/// The body of a request to replace the PRF keys of a login passkey.
#[derive(Debug)]
pub struct UpdatePrfKeysRequest {
    pub device_response: serde_json::Value,
    pub token: Option<String>,
    pub encrypted_user_key: String,
    pub encrypted_public_key: String,
    pub encrypted_private_key: String,
}

/// Model of [`UpdatePrfKeysRequest`].
pub struct UpdatePrfKeysRequestModel {
    pub device_response: serde_json::Value,
    pub token: Option<Seq<char>>,
    pub encrypted_user_key: Seq<char>,
    pub encrypted_public_key: Seq<char>,
    pub encrypted_private_key: Seq<char>,
}

impl DeepView for UpdatePrfKeysRequest {
    type V = UpdatePrfKeysRequestModel;

    open spec fn deep_view(&self) -> UpdatePrfKeysRequestModel {
        UpdatePrfKeysRequestModel {
            device_response: self.device_response,
            token: self.token.deep_view(),
            encrypted_user_key: self.encrypted_user_key@,
            encrypted_public_key: self.encrypted_public_key@,
            encrypted_private_key: self.encrypted_private_key@,
        }
    }
}

/// Stores the PRF keys of a login passkey that was used just now, and answers with all login
/// passkeys of the user.
pub open spec fn replace_prf_keys_script(
    user_id: Seq<char>,
    credential_id: Seq<char>,
    data: UpdatePrfKeysRequestModel,
    now_ms: i64,
    replies: Seq<ReplyModel>,
    at: int,
) -> ProgressModel<JsonModel> {
    chain(
        get_login_row_id_by_credential_id_script(credential_id, replies, at),
        |row_id: Option<Seq<char>>, at: int|
            match row_id {
                None => Err(StopModel::Fail(AppErrorModel::BadRequest("Credential not found"@))),
                Some(row_id) => chain(
                    update_prf_keys_script(
                        row_id,
                        data.encrypted_user_key,
                        data.encrypted_public_key,
                        data.encrypted_private_key,
                        now_ms,
                        replies,
                        at,
                    ),
                    |done: (), at: int| answer_credentials_script(user_id, replies, at),
                ),
            },
    )
}

/// Stores the PRF keys of a login passkey that was used just now, and answers with all login
/// passkeys of the user.
fn replace_prf_keys(
    user_id: &str,
    credential_id: &str,
    data: &UpdatePrfKeysRequest,
    now_ms: i64,
    replies: &Vec<Reply>,
    at: usize,
) -> (result: Progress<Json>)
    ensures
        progress(result) == replace_prf_keys_script(
            user_id@,
            credential_id@,
            data.deep_view(),
            now_ms,
            replies.deep_view(),
            at as int,
        ),
{
    let (row_id, at) = get_login_row_id_by_credential_id(credential_id, replies, at)?;
    let row_id = match row_id {
        Some(row_id) => row_id,
        None => {
            return Err(Stop::Fail(bad_request("Credential not found")));
        },
    };
    let (_done, at) = update_prf_keys(
        row_id.as_str(),
        data.encrypted_user_key.as_str(),
        data.encrypted_public_key.as_str(),
        data.encrypted_private_key.as_str(),
        now_ms,
        replies,
        at,
    )?;
    answer_credentials(user_id, replies, at)
}

/// `PUT /api/webauthn`: stores the PRF keys of a login passkey that the caller uses.
pub open spec fn put_webauthn_credential_script(
    config: PasskeyConfigModel,
    user_id: Seq<char>,
    data: UpdatePrfKeysRequestModel,
    replies: Seq<ReplyModel>,
) -> ProgressModel<JsonModel> {
    chain(
        read_clock_script(replies, 0),
        |now_ms: i64, at: int|
            chain(
                receive_assertion_script(data.device_response, replies, at),
                |assertion: (Seq<char>, LoginResponseModel), at: int|
                    chain(
                        finish_login_assertion_script(
                            StoreModeModel::Login,
                            config,
                            assertion.1,
                            now_ms,
                            replies,
                            at,
                        ),
                        |owner: Seq<char>, at: int|
                            if owner != user_id {
                                Err(
                                    StopModel::Fail(
                                        AppErrorModel::BadRequest("WebAuthn credential mismatch"@),
                                    ),
                                )
                            } else {
                                replace_prf_keys_script(
                                    user_id,
                                    assertion.0,
                                    data,
                                    now_ms,
                                    replies,
                                    at,
                                )
                            },
                    ),
            ),
    )
}

/// Stores the PRF keys of a login passkey that the caller uses at a relying party, over those there
/// are or as its first. The passkey must be the caller's own.
pub fn put_webauthn_credential_with(
    config: &PasskeyConfig,
    user_id: &str,
    data: &UpdatePrfKeysRequest,
    replies: &Vec<Reply>,
) -> (result: Progress<Json>)
    ensures
        progress(result) == put_webauthn_credential_script(
            config.deep_view(),
            user_id@,
            data.deep_view(),
            replies.deep_view(),
        ),
{
    let (now_ms, at) = read_clock(replies, 0)?;
    let (assertion, at) = receive_assertion(&data.device_response, replies, at)?;
    let (credential_id, response) = assertion;
    let (owner, at) = finish_login_assertion(
        StoreMode::Login,
        config,
        response,
        now_ms,
        replies,
        at,
    )?;
    if !same_text(owner.as_str(), user_id) {
        return Err(Stop::Fail(bad_request("WebAuthn credential mismatch")));
    }
    replace_prf_keys(user_id, credential_id.as_str(), data, now_ms, replies, at)
}

/// `PUT /api/webauthn`: stores the PRF keys of a login passkey that the caller uses.
pub fn put_webauthn_credential(
    base_url: &str,
    user_id: &str,
    data: &UpdatePrfKeysRequest,
    replies: &Vec<Reply>,
) -> (result: Progress<Json>)
    ensures
        progress(result) == put_webauthn_credential_script(
            config_for(url_host(base_url@), base_url@),
            user_id@,
            data.deep_view(),
            replies.deep_view(),
        ),
{
    let config = build_passkey_config(base_url);
    put_webauthn_credential_with(&config, user_id, data, replies)
}

/// `POST /api/webauthn/{id}/delete`: deletes a login passkey.
pub open spec fn delete_webauthn_credential_script(
    user_id: Seq<char>,
    id: Seq<char>,
    data: PasswordOrOtpDataModel,
    replies: Seq<ReplyModel>,
) -> ProgressModel<JsonModel> {
    chain(
        authorize_script(user_id, data, replies),
        |user: UserModel, at: int|
            chain(
                delete_login_credential_script(user_id, id, replies, at),
                |deleted: bool, at: int|
                    if deleted {
                        Ok((JsonModel::object(), at))
                    } else {
                        Err(StopModel::Fail(AppErrorModel::NotFound("Credential not found"@)))
                    },
            ),
    )
}

/// `POST /api/webauthn/{id}/delete`: deletes a login passkey by its row id. Its PRF keys go with
/// it, as the database cascades.
pub fn delete_webauthn_credential(
    user_id: &str,
    id: &str,
    data: &PasswordOrOtpData,
    replies: &Vec<Reply>,
) -> (result: Progress<Json>)
    ensures
        progress(result) == delete_webauthn_credential_script(
            user_id@,
            id@,
            data.deep_view(),
            replies.deep_view(),
        ),
{
    let (_user, at) = authorize(user_id, data, replies)?;
    let (deleted, at) = delete_login_credential(user_id, id, replies, at)?;
    if !deleted {
        return Err(Stop::Fail(AppError::NotFound("Credential not found".to_string())));
    }
    Ok((Json::object(), at))
}

/// No endpoint that takes a password or one-time code does anything before it was checked.
pub proof fn law_endpoints_are_guarded(
    config: PasskeyConfigModel,
    user_id: Seq<char>,
    email: Seq<char>,
    id: Seq<char>,
    data: PasswordOrOtpDataModel,
    replies: Seq<ReplyModel>,
)
    ensures
        guarded(
            post_attestation_options_script(config, user_id, email, data, replies),
            user_id,
            data,
            replies,
        ),
        guarded(
            post_assertion_options_script(config, user_id, data, replies),
            user_id,
            data,
            replies,
        ),
        guarded(
            delete_webauthn_credential_script(user_id, id, data, replies),
            user_id,
            data,
            replies,
        ),
{
}

/// PRF keys are kept only for a passkey whose registration was accepted just before, in the row of
/// that passkey, and they are those of the request. The passkey counts as one with the extension,
/// and has keys at all, only where the request says so.
pub proof fn law_keys_go_to_the_new_passkey(
    config: PasskeyConfigModel,
    row_id: Seq<char>,
    user_id: Seq<char>,
    data: CreateLoginCredentialRequestModel,
    replies: Seq<ReplyModel>,
)
    ensures
        post_webauthn_credential_script(config, row_id, user_id, data, replies) matches Err(
            StopModel::Ask(ActionModel::Fetch { statement, rows: Rows::LoginRowId }),
        ) ==> {
            &&& replies.len() == 3
            &&& replies[1] matches ReplyModel::Registration(payload)
            &&& parsed_registration(payload) matches Ok(compat)
            &&& statement == get_login_row_id_by_credential_id_statement(compat.id)
        },
        post_webauthn_credential_script(config, row_id, user_id, data, replies) matches Err(
            StopModel::Ask(ActionModel::Execute { statement }),
        ) ==> {
            &&& replies.len() == 4
            &&& replies[0] matches ReplyModel::Time(now_ms)
            &&& replies[2] == ReplyModel::RegistrationFinished(Ok(()))
            &&& replies[3] matches ReplyModel::LoginRowId(Ok(Some(row)))
            &&& statement == create_prf_credential_statement(
                row,
                data.supports_prf == Some(true),
                if_supported(data.supports_prf == Some(true), data.encrypted_user_key),
                if_supported(data.supports_prf == Some(true), data.encrypted_public_key),
                if_supported(data.supports_prf == Some(true), data.encrypted_private_key),
                now_ms,
            )
        },
{
}

/// PRF keys are stored only for a passkey that the caller has just used and owns, under the row of
/// that passkey, and they are those of the request. They go over those there are first, and into a
/// new record only where that changed nothing. A passkey of somebody else is refused.
pub proof fn law_only_own_passkeys_change(
    config: PasskeyConfigModel,
    user_id: Seq<char>,
    data: UpdatePrfKeysRequestModel,
    replies: Seq<ReplyModel>,
)
    ensures
        put_webauthn_credential_script(config, user_id, data, replies) matches Err(
            StopModel::Ask(ActionModel::Fetch { statement, rows: Rows::LoginRowId }),
        ) ==> {
            &&& replies.len() == 3
            &&& replies[1] matches ReplyModel::Assertion(payload)
            &&& received_assertion(payload) matches Ok(assertion)
            &&& statement == get_login_row_id_by_credential_id_statement(assertion.0)
        },
        put_webauthn_credential_script(config, user_id, data, replies) matches Err(
            StopModel::Ask(ActionModel::Execute { statement }),
        ) ==> {
            &&& replies.len() == 4 || replies.len() == 5
            &&& replies[0] matches ReplyModel::Time(now_ms)
            &&& replies[2] == ReplyModel::LoginFinished(Ok(user_id))
            &&& replies[3] matches ReplyModel::LoginRowId(Ok(Some(row)))
            &&& replies.len() == 4 ==> statement == update_prf_keys_statement(
                row,
                data.encrypted_user_key,
                data.encrypted_public_key,
                data.encrypted_private_key,
                now_ms,
            )
            &&& replies.len() == 5 ==> {
                &&& replies[4] == ReplyModel::Executed(Ok(Some(false)))
                &&& statement == create_prf_credential_statement(
                    row,
                    true,
                    Some(data.encrypted_user_key),
                    Some(data.encrypted_public_key),
                    Some(data.encrypted_private_key),
                    now_ms,
                )
            }
        },
        replies.len() >= 3 && (replies[0] matches ReplyModel::Time(_)) && (
        replies[1] matches ReplyModel::Assertion(payload) && received_assertion(payload) is Ok) && (
        replies[2] matches ReplyModel::LoginFinished(Ok(owner)) && owner != user_id)
            ==> put_webauthn_credential_script(config, user_id, data, replies) == Err::<
            (JsonModel, int),
            StopModel,
        >(StopModel::Fail(AppErrorModel::BadRequest("WebAuthn credential mismatch"@))),
{
}

/// A login passkey is registered once every step went well. The answer lists every login passkey of
/// the user.
pub proof fn law_registration_succeeds(
    config: PasskeyConfigModel,
    row_id: Seq<char>,
    user_id: Seq<char>,
    data: CreateLoginCredentialRequestModel,
    payload: RegistrationPayloadModel,
    row: Seq<char>,
    credentials: Seq<LoginCredentialWithPrfModel>,
    replies: Seq<ReplyModel>,
)
    requires
        replies.len() == 6,
        replies[0] matches ReplyModel::Time(_),
        replies[1] == ReplyModel::Registration(Ok(payload)),
        payload.normalize() is Some,
        replies[2] == ReplyModel::RegistrationFinished(Ok(())),
        replies[3] == ReplyModel::LoginRowId(Ok(Some(row))),
        replies[4] matches ReplyModel::Executed(Ok(_)),
        replies[5] == ReplyModel::LoginCredentials(Ok(credentials)),
    ensures
        post_webauthn_credential_script(config, row_id, user_id, data, replies) == Ok::<
            (JsonModel, int),
            StopModel,
        >((credentials_answer(credentials), 6)),
{
}

/// The PRF keys of a login passkey of the caller are replaced once every step went well and the
/// database does not say that nothing changed.
pub proof fn law_replacing_keys_succeeds(
    config: PasskeyConfigModel,
    user_id: Seq<char>,
    data: UpdatePrfKeysRequestModel,
    payload: AssertionPayloadModel,
    row: Seq<char>,
    changed: Option<bool>,
    credentials: Seq<LoginCredentialWithPrfModel>,
    replies: Seq<ReplyModel>,
)
    requires
        replies.len() == 6,
        replies[0] matches ReplyModel::Time(_),
        replies[1] == ReplyModel::Assertion(Ok(payload)),
        payload.normalize() is Some,
        replies[2] == ReplyModel::LoginFinished(Ok(user_id)),
        replies[3] == ReplyModel::LoginRowId(Ok(Some(row))),
        replies[4] == ReplyModel::Executed(Ok(changed)),
        changed != Some(false),
        replies[5] == ReplyModel::LoginCredentials(Ok(credentials)),
    ensures
        put_webauthn_credential_script(config, user_id, data, replies) == Ok::<
            (JsonModel, int),
            StopModel,
        >((credentials_answer(credentials), 6)),
{
}

/// A login passkey of the caller that has no record of PRF keys gets one: where the database says
/// that nothing changed, the keys are inserted, and the endpoint gets through only after that went
/// well.
pub proof fn law_first_keys_are_inserted(
    config: PasskeyConfigModel,
    user_id: Seq<char>,
    data: UpdatePrfKeysRequestModel,
    now_ms: i64,
    payload: AssertionPayloadModel,
    row: Seq<char>,
    inserted: Option<bool>,
    credentials: Seq<LoginCredentialWithPrfModel>,
    replies: Seq<ReplyModel>,
)
    requires
        replies.len() == 7,
        replies[0] == ReplyModel::Time(now_ms),
        replies[1] == ReplyModel::Assertion(Ok(payload)),
        payload.normalize() is Some,
        replies[2] == ReplyModel::LoginFinished(Ok(user_id)),
        replies[3] == ReplyModel::LoginRowId(Ok(Some(row))),
        replies[4] == ReplyModel::Executed(Ok(Some(false))),
        replies[5] == ReplyModel::Executed(Ok(inserted)),
        replies[6] == ReplyModel::LoginCredentials(Ok(credentials)),
    ensures
        put_webauthn_credential_script(config, user_id, data, replies.take(5)) == Err::<
            (JsonModel, int),
            StopModel,
        >(
            StopModel::Ask(
                ActionModel::Execute {
                    statement: create_prf_credential_statement(
                        row,
                        true,
                        Some(data.encrypted_user_key),
                        Some(data.encrypted_public_key),
                        Some(data.encrypted_private_key),
                        now_ms,
                    ),
                },
            ),
        ),
        put_webauthn_credential_script(config, user_id, data, replies) == Ok::<
            (JsonModel, int),
            StopModel,
        >((credentials_answer(credentials), 7)),
{
}

} // verus!
