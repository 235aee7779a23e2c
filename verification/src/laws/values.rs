//! What the models of values tell of them.
use vstd::prelude::*;
use crate::error::{outcome, AppError, AppErrorModel};
use crate::flow::{progress, Action, ActionModel, Reply, ReplyModel, Stop, StopModel};
use crate::handlers::twofactor::{WebauthnDeleteData, WebauthnRegisterData};
use crate::handlers::webauth::{CreateLoginCredentialRequest, UpdatePrfKeysRequest};
use crate::json::{Json, JsonModel};
use crate::models::{
    DisableAuthenticatorData, DisableTwoFactorData, EnableAuthenticatorData, PasswordOrOtpData,
    TwoFactor, User, WebAuthnRotateKeyData,
};
use crate::sql::{DbError, DbErrorModel, SqlValue, SqlValueModel, Statement};
use crate::types::{
    AssertionResponse, AttestationResponse, AuthenticatorSelection, CredentialDescriptor,
    LoginResponse, PasskeyConfig, PubKeyCredParam, PublicKeyCredentialCreationOptions,
    PublicKeyCredentialRequestOptions, RegistrationResponse, RpEntity, StoredPasskey, UserEntity,
};
use crate::util::{NumberOrString, NumberOrStringModel};
use crate::webauthn::compat::{
    AssertionPayload, AssertionResponseCompat, AttestationResponseCompat, LoginResponseCompat,
    RegistrationPayload, RegistrationResponseCompat,
};
use crate::webauthn::prf::LoginCredentialWithPrf;
use crate::webauthn::store::{
    NewPasskey, StoreError, StoreMode, StoreModeModel, WebauthnCredentialRow,
};

verus! {

/// The model of [`PasskeyConfig`] tells every member under its own name.
pub proof fn law_passkey_config_model(value: PasskeyConfig)
    ensures
        ({
            let model = value.deep_view();
            &&& model.rp_id == value.rp_id@
            &&& model.rp_name == value.rp_name@
            &&& model.origin == value.origin@
            &&& model.state_ttl == value.state_ttl
        }),
{
}

/// The model of [`StoredPasskey`] tells every member under its own name.
pub proof fn law_stored_passkey_model(value: StoredPasskey)
    ensures
        ({
            let model = value.deep_view();
            &&& model.user_id == value.user_id@
            &&& model.cred_id == value.cred_id@
            &&& model.public_key == value.public_key@
            &&& model.name == value.name@
            &&& model.created_at == value.created_at
            &&& model.last_used_at == value.last_used_at
            &&& model.counter == value.counter
        }),
{
}

/// The model of [`RpEntity`] tells every member under its own name.
pub proof fn law_rp_entity_model(value: RpEntity)
    ensures
        ({
            let model = value.deep_view();
            &&& model.name == value.name@
            &&& model.id == value.id@
        }),
{
}

/// The model of [`UserEntity`] tells every member under its own name.
pub proof fn law_user_entity_model(value: UserEntity)
    ensures
        ({
            let model = value.deep_view();
            &&& model.id == value.id@
            &&& model.name == value.name@
            &&& model.display_name == value.display_name@
        }),
{
}

/// The model of [`PubKeyCredParam`] tells every member under its own name.
pub proof fn law_pub_key_cred_param_model(value: PubKeyCredParam)
    ensures
        ({
            let model = value.deep_view();
            &&& model.type_ == value.type_@
            &&& model.alg == value.alg
        }),
{
}

/// The model of [`CredentialDescriptor`] tells every member under its own name.
pub proof fn law_credential_descriptor_model(value: CredentialDescriptor)
    ensures
        ({
            let model = value.deep_view();
            &&& model.type_ == value.type_@
            &&& model.id == value.id@
            &&& model.transports == value.transports.deep_view()
        }),
{
}

/// The model of [`AuthenticatorSelection`] tells every member under its own name.
pub proof fn law_authenticator_selection_model(value: AuthenticatorSelection)
    ensures
        ({
            let model = value.deep_view();
            &&& model.authenticator_attachment == value.authenticator_attachment.deep_view()
            &&& model.require_resident_key == value.require_resident_key
            &&& model.resident_key == value.resident_key.deep_view()
            &&& model.user_verification == value.user_verification.deep_view()
        }),
{
}

/// The model of [`PublicKeyCredentialCreationOptions`] tells every member under its own name.
pub proof fn law_creation_options_model(value: PublicKeyCredentialCreationOptions)
    ensures
        ({
            let model = value.deep_view();
            &&& model.rp == value.rp.deep_view()
            &&& model.user == value.user.deep_view()
            &&& model.challenge == value.challenge@
            &&& model.pub_key_cred_params == value.pub_key_cred_params.deep_view()
            &&& model.timeout == value.timeout
            &&& model.exclude_credentials == value.exclude_credentials.deep_view()
            &&& model.authenticator_selection == value.authenticator_selection.deep_view()
            &&& model.attestation == value.attestation.deep_view()
        }),
{
}

/// The model of [`PublicKeyCredentialRequestOptions`] tells every member under its own name.
pub proof fn law_request_options_model(value: PublicKeyCredentialRequestOptions)
    ensures
        ({
            let model = value.deep_view();
            &&& model.challenge == value.challenge@
            &&& model.timeout == value.timeout
            &&& model.rp_id == value.rp_id@
            &&& model.allow_credentials == value.allow_credentials.deep_view()
            &&& model.user_verification == value.user_verification.deep_view()
        }),
{
}

/// The model of [`AttestationResponse`] tells every member under its own name.
pub proof fn law_attestation_response_model(value: AttestationResponse)
    ensures
        ({
            let model = value.deep_view();
            &&& model.client_data_json == value.client_data_json@
            &&& model.attestation_object == value.attestation_object@
        }),
{
}

/// The model of [`RegistrationResponse`] tells every member under its own name.
pub proof fn law_registration_response_model(value: RegistrationResponse)
    ensures
        ({
            let model = value.deep_view();
            &&& model.id == value.id@
            &&& model.raw_id == value.raw_id@
            &&& model.type_ == value.type_@
            &&& model.response == value.response.deep_view()
            &&& model.client_extension_results == value.client_extension_results
            &&& model.name == value.name.deep_view()
        }),
{
}

/// The model of [`AssertionResponse`] tells every member under its own name.
pub proof fn law_assertion_response_model(value: AssertionResponse)
    ensures
        ({
            let model = value.deep_view();
            &&& model.client_data_json == value.client_data_json@
            &&& model.authenticator_data == value.authenticator_data@
            &&& model.signature == value.signature@
            &&& model.user_handle == value.user_handle.deep_view()
        }),
{
}

/// The model of [`LoginResponse`] tells every member under its own name.
pub proof fn law_login_response_model(value: LoginResponse)
    ensures
        ({
            let model = value.deep_view();
            &&& model.id == value.id@
            &&& model.raw_id == value.raw_id@
            &&& model.type_ == value.type_@
            &&& model.response == value.response.deep_view()
            &&& model.client_extension_results == value.client_extension_results
        }),
{
}

/// The model of [`TwoFactor`] tells every member under its own name.
pub proof fn law_two_factor_model(value: TwoFactor)
    ensures
        ({
            let model = value.deep_view();
            &&& model.uuid == value.uuid@
            &&& model.user_uuid == value.user_uuid@
            &&& model.atype == value.atype
            &&& model.enabled == value.enabled
            &&& model.data == value.data@
            &&& model.last_used == value.last_used
        }),
{
}

/// The model of [`User`] tells every member under its own name.
pub proof fn law_user_model(value: User)
    ensures
        ({
            let model = value.deep_view();
            &&& model.name == value.name.deep_view()
            &&& model.totp_recover == value.totp_recover.deep_view()
        }),
{
}

/// The model of [`PasswordOrOtpData`] tells every member under its own name.
pub proof fn law_password_or_otp_data_model(value: PasswordOrOtpData)
    ensures
        ({
            let model = value.deep_view();
            &&& model.master_password_hash == value.master_password_hash.deep_view()
            &&& model.otp == value.otp.deep_view()
        }),
{
}

/// The model of [`EnableAuthenticatorData`] tells every member under its own name.
pub proof fn law_enable_authenticator_data_model(value: EnableAuthenticatorData)
    ensures
        ({
            let model = value.deep_view();
            &&& model.key == value.key@
            &&& model.token == value.token@
            &&& model.master_password_hash == value.master_password_hash.deep_view()
            &&& model.otp == value.otp.deep_view()
        }),
{
}

/// The model of [`DisableTwoFactorData`] tells every member under its own name.
pub proof fn law_disable_two_factor_data_model(value: DisableTwoFactorData)
    ensures
        ({
            let model = value.deep_view();
            &&& model.master_password_hash == value.master_password_hash.deep_view()
            &&& model.otp == value.otp.deep_view()
            &&& model.type_ == value.type_
        }),
{
}

/// The model of [`DisableAuthenticatorData`] tells every member under its own name.
pub proof fn law_disable_authenticator_data_model(value: DisableAuthenticatorData)
    ensures
        ({
            let model = value.deep_view();
            &&& model.key == value.key@
            &&& model.master_password_hash == value.master_password_hash.deep_view()
            &&& model.otp == value.otp.deep_view()
            &&& model.type_ == value.type_
        }),
{
}

/// The model of [`WebAuthnRotateKeyData`] tells every member under its own name.
pub proof fn law_webauthn_rotate_key_data_model(value: WebAuthnRotateKeyData)
    ensures
        ({
            let model = value.deep_view();
            &&& model.id == value.id@
            &&& model.encrypted_user_key == value.encrypted_user_key@
            &&& model.encrypted_public_key == value.encrypted_public_key@
        }),
{
}

/// The model of [`RegistrationPayload`] tells every member under its own name.
pub proof fn law_registration_payload_model(value: RegistrationPayload)
    ensures
        ({
            let model = value.deep_view();
            &&& model.id == value.id@
            &&& model.raw_id == value.raw_id@
            &&& model.type_ == value.type_@
            &&& model.client_data_json == value.client_data_json@
            &&& model.attestation_object == value.attestation_object@
            &&& model.client_extension_results == value.client_extension_results
            &&& model.name == value.name.deep_view()
        }),
{
}

/// The model of [`AssertionPayload`] tells every member under its own name.
pub proof fn law_assertion_payload_model(value: AssertionPayload)
    ensures
        ({
            let model = value.deep_view();
            &&& model.id == value.id@
            &&& model.raw_id == value.raw_id@
            &&& model.type_ == value.type_@
            &&& model.client_data_json == value.client_data_json@
            &&& model.authenticator_data == value.authenticator_data@
            &&& model.signature == value.signature@
            &&& model.user_handle == value.user_handle.deep_view()
            &&& model.client_extension_results == value.client_extension_results
        }),
{
}

/// The model of [`AttestationResponseCompat`] tells every member under its own name.
pub proof fn law_attestation_response_compat_model(value: AttestationResponseCompat)
    ensures
        ({
            let model = value.deep_view();
            &&& model.client_data_json == value.client_data_json@
            &&& model.attestation_object == value.attestation_object@
        }),
{
}

/// The model of [`RegistrationResponseCompat`] tells every member under its own name.
pub proof fn law_registration_response_compat_model(value: RegistrationResponseCompat)
    ensures
        ({
            let model = value.deep_view();
            &&& model.id == value.id@
            &&& model.raw_id == value.raw_id@
            &&& model.type_ == value.type_@
            &&& model.response == value.response.deep_view()
            &&& model.client_extension_results == value.client_extension_results
            &&& model.name == value.name.deep_view()
        }),
{
}

/// The model of [`AssertionResponseCompat`] tells every member under its own name.
pub proof fn law_assertion_response_compat_model(value: AssertionResponseCompat)
    ensures
        ({
            let model = value.deep_view();
            &&& model.client_data_json == value.client_data_json@
            &&& model.authenticator_data == value.authenticator_data@
            &&& model.signature == value.signature@
            &&& model.user_handle == value.user_handle.deep_view()
        }),
{
}

/// The model of [`LoginResponseCompat`] tells every member under its own name.
pub proof fn law_login_response_compat_model(value: LoginResponseCompat)
    ensures
        ({
            let model = value.deep_view();
            &&& model.id == value.id@
            &&& model.raw_id == value.raw_id@
            &&& model.type_ == value.type_@
            &&& model.response == value.response.deep_view()
            &&& model.client_extension_results == value.client_extension_results
        }),
{
}

/// The model of [`WebauthnCredentialRow`] tells every member under its own name.
pub proof fn law_webauthn_credential_row_model(value: WebauthnCredentialRow)
    ensures
        ({
            let model = value.deep_view();
            &&& model.id == value.id@
            &&& model.user_id == value.user_id@
            &&& model.usage == value.usage@
            &&& model.provider_id == value.provider_id
            &&& model.name == value.name@
            &&& model.credential_id == value.credential_id@
            &&& model.public_key == value.public_key@
            &&& model.counter == value.counter
            &&& model.aaguid == value.aaguid.deep_view()
            &&& model.transports == value.transports@
            &&& model.backup_eligible == value.backup_eligible
            &&& model.backup_state == value.backup_state
            &&& model.created_at == value.created_at
            &&& model.last_used_at == value.last_used_at
        }),
{
}

/// The model of [`NewPasskey`] tells every member under its own name.
pub proof fn law_new_passkey_model(value: NewPasskey)
    ensures
        ({
            let model = value.deep_view();
            &&& model.user_id == value.user_id@
            &&& model.cred_id == value.cred_id@
            &&& model.public_key == value.public_key@
            &&& model.name == value.name@
            &&& model.counter == value.counter
            &&& model.created_at == value.created_at
        }),
{
}

/// The model of [`StoreError`] tells every member under its own name.
pub proof fn law_store_error_model(value: StoreError)
    ensures
        ({
            let model = value.deep_view();
            &&& model.message == value.message@
        }),
{
}

/// The model of [`LoginCredentialWithPrf`] tells every member under its own name.
pub proof fn law_login_credential_with_prf_model(value: LoginCredentialWithPrf)
    ensures
        ({
            let model = value.deep_view();
            &&& model.id == value.id@
            &&& model.credential_id == value.credential_id@
            &&& model.name == value.name@
            &&& model.transports == value.transports@
            &&& model.supports_prf == value.supports_prf
            &&& model.encrypted_user_key == value.encrypted_user_key.deep_view()
            &&& model.encrypted_public_key == value.encrypted_public_key.deep_view()
            &&& model.encrypted_private_key == value.encrypted_private_key.deep_view()
        }),
{
}

/// The model of [`CreateLoginCredentialRequest`] tells every member under its own name.
pub proof fn law_create_login_credential_request_model(value: CreateLoginCredentialRequest)
    ensures
        ({
            let model = value.deep_view();
            &&& model.device_response == value.device_response
            &&& model.name == value.name@
            &&& model.token == value.token.deep_view()
            &&& model.supports_prf == value.supports_prf
            &&& model.encrypted_user_key == value.encrypted_user_key.deep_view()
            &&& model.encrypted_public_key == value.encrypted_public_key.deep_view()
            &&& model.encrypted_private_key == value.encrypted_private_key.deep_view()
        }),
{
}

/// The model of [`UpdatePrfKeysRequest`] tells every member under its own name.
pub proof fn law_update_prf_keys_request_model(value: UpdatePrfKeysRequest)
    ensures
        ({
            let model = value.deep_view();
            &&& model.device_response == value.device_response
            &&& model.token == value.token.deep_view()
            &&& model.encrypted_user_key == value.encrypted_user_key@
            &&& model.encrypted_public_key == value.encrypted_public_key@
            &&& model.encrypted_private_key == value.encrypted_private_key@
        }),
{
}

/// The model of [`WebauthnRegisterData`] tells every member under its own name.
pub proof fn law_webauthn_register_data_model(value: WebauthnRegisterData)
    ensures
        ({
            let model = value.deep_view();
            &&& model.master_password_hash == value.master_password_hash.deep_view()
            &&& model.otp == value.otp.deep_view()
            &&& model.id == value.id.deep_view()
            &&& model.device_response == value.device_response
            &&& model.name == value.name@
        }),
{
}

/// The model of [`WebauthnDeleteData`] tells every member under its own name.
pub proof fn law_webauthn_delete_data_model(value: WebauthnDeleteData)
    ensures
        ({
            let model = value.deep_view();
            &&& model.master_password_hash == value.master_password_hash.deep_view()
            &&& model.otp == value.otp.deep_view()
            &&& model.id == value.id.deep_view()
        }),
{
}

/// The model of [`Statement`] tells every member under its own name.
pub proof fn law_statement_model(value: Statement)
    ensures
        ({
            let model = value.deep_view();
            &&& model.sql == value.sql@
            &&& model.params == value.params.deep_view()
        }),
{
}

/// The model of [`AppError`] tells its kind and its text.
pub proof fn law_app_error_model(value: AppError)
    ensures
        match value {
            AppError::BadRequest(text) => value.deep_view() == AppErrorModel::BadRequest(text@),
            AppError::NotFound(text) => value.deep_view() == AppErrorModel::NotFound(text@),
            AppError::Unauthorized(text) => value.deep_view() == AppErrorModel::Unauthorized(text@),
            AppError::Database => value.deep_view() == AppErrorModel::Database,
            AppError::Internal => value.deep_view() == AppErrorModel::Internal,
        },
{
}

/// The model of [`DbError`] tells its kind, its text, and the error that was prepared.
pub proof fn law_db_error_model(value: DbError)
    ensures
        match value {
            DbError::Bind(error, text) => value.deep_view() == DbErrorModel::Bind(
                error.deep_view(),
                text@,
            ),
            DbError::Query(text) => value.deep_view() == DbErrorModel::Query(text@),
            DbError::Row(text) => value.deep_view() == DbErrorModel::Row(text@),
        },
{
}

/// The model of [`SqlValue`] tells its kind and what it holds.
pub proof fn law_sql_value_model(value: SqlValue)
    ensures
        match value {
            SqlValue::Null => value.deep_view() == SqlValueModel::Null,
            SqlValue::Int(number) => value.deep_view() == SqlValueModel::Int(number as int),
            SqlValue::Bool(truth) => value.deep_view() == SqlValueModel::Bool(truth),
            SqlValue::Text(text) => value.deep_view() == SqlValueModel::Text(text@),
        },
{
}

/// The model of [`NumberOrString`] tells its kind and what it holds.
pub proof fn law_number_or_string_model(value: NumberOrString)
    ensures
        match value {
            NumberOrString::Number(number) => value.deep_view() == NumberOrStringModel::Number(
                number,
            ),
            NumberOrString::String(text) => value.deep_view() == NumberOrStringModel::String(text@),
        },
{
}

/// The model of [`StoreMode`] tells what the store is for and every member under its own name.
pub proof fn law_store_mode_model(value: StoreMode)
    ensures
        match value {
            StoreMode::Login => value.deep_view() == StoreModeModel::Login,
            StoreMode::TwoFactor => value.deep_view() == StoreModeModel::TwoFactor,
            StoreMode::LoginRegistration { row_id, original_name } => value.deep_view() == (
            StoreModeModel::LoginRegistration { row_id: row_id@, original_name: original_name@ }),
            StoreMode::TwoFactorRegistration { provider_id, original_name } => value.deep_view()
                == (StoreModeModel::TwoFactorRegistration {
                provider_id,
                original_name: original_name@,
            }),
        },
{
}

/// The model of [`Json`] tells its kind and what it holds, items and members in their order.
pub proof fn law_json_model(value: Json)
    ensures
        match value {
            Json::Null => value.deep_view() == JsonModel::Null,
            Json::Bool(truth) => value.deep_view() == JsonModel::Bool(truth),
            Json::Int(number) => value.deep_view() == JsonModel::Number(number as int),
            Json::UInt(number) => value.deep_view() == JsonModel::Number(number as int),
            Json::Text(text) => value.deep_view() == JsonModel::Text(text@),
            Json::List(items) => {
                &&& value.deep_view() matches JsonModel::List(list)
                &&& list.len() == items@.len()
                &&& forall|i: int|
                    0 <= i < list.len() ==> #[trigger] list[i] == items@[i].deep_view()
            },
            Json::Object(members) => {
                &&& value.deep_view() matches JsonModel::Object(list)
                &&& list.len() == members@.len()
                &&& forall|i: int|
                    0 <= i < list.len() ==> (#[trigger] list[i]).0 == members@[i].0@ && list[i].1
                        == members@[i].1.deep_view()
            },
        },
{
    reveal_with_fuel(Json::model, 2);
}

/// What a procedure came to is told whole: its value and its place, what it asks for, its error, or
/// that it could not read a reply. So is the outcome of a call.
pub proof fn law_progress_model<T: DeepView>(
    value: T,
    at: usize,
    action: Action,
    error: AppError,
)
    ensures
        progress(Ok::<(T, usize), Stop>((value, at))) == Ok::<(T::V, int), StopModel>(
            (value.deep_view(), at as int),
        ),
        progress(Err::<(T, usize), Stop>(Stop::Ask(action))) == Err::<(T::V, int), StopModel>(
            StopModel::Ask(action.deep_view()),
        ),
        progress(Err::<(T, usize), Stop>(Stop::Fail(error))) == Err::<(T::V, int), StopModel>(
            StopModel::Fail(error.deep_view()),
        ),
        progress(Err::<(T, usize), Stop>(Stop::Unexpected)) == Err::<(T::V, int), StopModel>(
            StopModel::Unexpected,
        ),
        outcome(Ok::<T, AppError>(value)) == Ok::<T::V, AppErrorModel>(value.deep_view()),
        outcome(Err::<T, AppError>(error)) == Err::<T::V, AppErrorModel>(error.deep_view()),
{
}

/// The model of [`Action`] tells what is asked for and every value that goes into it, under its own
/// name.
pub proof fn law_action_model(value: Action)
    ensures
        match value {
            Action::FindUser { user_id } => value.deep_view() == (ActionModel::FindUser {
                user_id: user_id@,
            }),
            Action::VerifyUser { data } => value.deep_view() == (ActionModel::VerifyUser {
                data: data.deep_view(),
            }),
            Action::DecodeBase32 { text } => value.deep_view() == (ActionModel::DecodeBase32 {
                text: text@,
            }),
            Action::ValidateTotp { token, key, last_used } => value.deep_view() == (
            ActionModel::ValidateTotp {
                token: token@,
                key: key@,
                last_used,
            }),
            Action::GenerateTotpSecret => value.deep_view() == ActionModel::GenerateTotpSecret,
            Action::GenerateRecoveryCode => value.deep_view() == ActionModel::GenerateRecoveryCode,
            Action::NewTwoFactor { user_id, type_, secret } => value.deep_view() == (
            ActionModel::NewTwoFactor {
                user_id: user_id@,
                type_,
                secret: secret@,
            }),
            Action::CompareSecrets { stored, given } => value.deep_view() == (
            ActionModel::CompareSecrets {
                stored: stored@,
                given: given@,
            }),
            Action::DescribeProviders { providers } => value.deep_view() == (
            ActionModel::DescribeProviders {
                providers: providers.deep_view(),
            }),
            Action::Execute { statement } => value.deep_view() == (ActionModel::Execute {
                statement: statement.deep_view(),
            }),
            Action::ExecuteAll { statements } => value.deep_view() == (ActionModel::ExecuteAll {
                statements: statements.deep_view(),
            }),
            Action::Fetch { statement, rows } => value.deep_view() == (ActionModel::Fetch {
                statement: statement.deep_view(),
                rows,
            }),
            Action::FetchTwoFactors { twofactors, security_keys } => value.deep_view() == (
            ActionModel::FetchTwoFactors {
                twofactors: twofactors.deep_view(),
                security_keys: security_keys.deep_view(),
            }),
            Action::ReadClock => value.deep_view() == ActionModel::ReadClock,
            Action::ParseRegistration { body } => value.deep_view() == (
            ActionModel::ParseRegistration {
                body,
            }),
            Action::ParseAssertion { body } => value.deep_view() == (ActionModel::ParseAssertion {
                body,
            }),
            Action::ReadOrigin { client_data } => value.deep_view() == (ActionModel::ReadOrigin {
                client_data: client_data@,
            }),
            Action::StartRegistration {
                mode,
                user_id,
                username,
                display_name,
                config,
                now_ms,
            } => value.deep_view() == (ActionModel::StartRegistration {
                mode: mode.deep_view(),
                user_id: user_id@,
                username: username@,
                display_name: display_name@,
                config: config.deep_view(),
                now_ms,
            }),
            Action::FinishRegistration {
                mode,
                user_id,
                config,
                attestation,
                now_ms,
            } => value.deep_view() == (ActionModel::FinishRegistration {
                mode: mode.deep_view(),
                user_id: user_id@,
                config: config.deep_view(),
                attestation: attestation.deep_view(),
                now_ms,
            }),
            Action::StartLogin { mode, config, now_ms } => value.deep_view() == (
            ActionModel::StartLogin {
                mode: mode.deep_view(),
                config: config.deep_view(),
                now_ms,
            }),
            Action::FinishLogin { mode, config, assertion, now_ms } => value.deep_view() == (
            ActionModel::FinishLogin {
                mode: mode.deep_view(),
                config: config.deep_view(),
                assertion: assertion.deep_view(),
                now_ms,
            }),
        },
{
}

/// The model of [`Reply`] tells what was asked for and what came back.
pub proof fn law_reply_model(value: Reply)
    ensures
        match value {
            Reply::User(reply) => value.deep_view() == ReplyModel::User(outcome(reply)),
            Reply::Verified(reply) => value.deep_view() == ReplyModel::Verified(outcome(reply)),
            Reply::Decoded(reply) => value.deep_view() == ReplyModel::Decoded(outcome(reply)),
            Reply::TimeStep(reply) => value.deep_view() == ReplyModel::TimeStep(outcome(reply)),
            Reply::Generated(reply) => value.deep_view() == ReplyModel::Generated(outcome(reply)),
            Reply::NewTwoFactor(reply) => value.deep_view()
                == ReplyModel::NewTwoFactor(reply.deep_view()),
            Reply::Same(reply) => value.deep_view() == ReplyModel::Same(reply),
            Reply::Providers(reply) => value.deep_view()
                == ReplyModel::Providers(reply.deep_view()),
            Reply::Executed(reply) => value.deep_view() == ReplyModel::Executed(outcome(reply)),
            Reply::TwoFactor(reply) => value.deep_view() == ReplyModel::TwoFactor(outcome(reply)),
            Reply::Presence(reply) => value.deep_view() == ReplyModel::Presence(outcome(reply)),
            Reply::RecoveryCode(reply) => value.deep_view()
                == ReplyModel::RecoveryCode(outcome(reply)),
            Reply::LoginRowId(reply) => value.deep_view() == ReplyModel::LoginRowId(outcome(reply)),
            Reply::LoginCredential(reply) => value.deep_view()
                == ReplyModel::LoginCredential(outcome(reply)),
            Reply::LoginCredentials(reply) => value.deep_view()
                == ReplyModel::LoginCredentials(outcome(reply)),
            Reply::SecurityKeys(reply) => value.deep_view()
                == ReplyModel::SecurityKeys(outcome(reply)),
            Reply::TwoFactors(reply) => value.deep_view() == ReplyModel::TwoFactors(outcome(reply)),
            Reply::Time(reply) => value.deep_view() == ReplyModel::Time(reply),
            Reply::Registration(reply) => value.deep_view()
                == ReplyModel::Registration(outcome(reply)),
            Reply::Assertion(reply) => value.deep_view() == ReplyModel::Assertion(outcome(reply)),
            Reply::Origin(reply) => value.deep_view() == ReplyModel::Origin(reply.deep_view()),
            Reply::RegistrationStarted(reply) => value.deep_view()
                == ReplyModel::RegistrationStarted(outcome(reply)),
            Reply::RegistrationFinished(reply) => value.deep_view()
                == ReplyModel::RegistrationFinished(outcome(reply)),
            Reply::LoginStarted(reply) => value.deep_view()
                == ReplyModel::LoginStarted(outcome(reply)),
            Reply::LoginFinished(reply) => value.deep_view()
                == ReplyModel::LoginFinished(outcome(reply)),
        },
{
}

} // verus!
