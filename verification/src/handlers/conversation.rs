//! Every endpoint is one conversation, however often it is resumed.
use vstd::prelude::*;
use crate::encoding::base64url_bytes;
use crate::flow::{
    compare_secrets_script, decode_base32_script, describe_providers_script,
    execute_or_database_script, execute_script, fetch_recovery_code_script, fetch_twofactor_script,
    fetch_twofactors_script, find_user_script, generate_recovery_code_script,
    generate_totp_secret_script, new_twofactor_script, read_clock_script, read_origin_script,
    validate_totp_script, verify_user_script, ActionModel, ReplyModel, Rows,
};
use crate::handlers::twofactor::{
    activate_authenticator_script, activate_webauthn_script, all_numbered, answer_keys_script,
    clear_recovery_code, clear_recovery_if_no_twofactor_script, delete_authenticator_script,
    delete_security_keys, delete_twofactor, delete_twofactor_row, delete_type_script,
    delete_webauthn_script, disable_authenticator_script, disable_twofactor_script,
    generate_recovery_code_for_user_script, get_authenticator_script, get_recover_script,
    get_twofactor_script, get_webauthn_challenge_script, get_webauthn_twofactor_script,
    insert_twofactor, last_step, list_user_twofactors_script, only_enabled, register_key_script,
    replace_authenticator_script, select_recovery_code, select_security_key, select_twofactor,
    select_twofactors, set_recovery_code, tell_providers_script, twofactor_enabled,
    WebauthnDeleteDataModel, WebauthnRegisterDataModel,
};
use crate::handlers::webauth::{
    answer_credentials_script, delete_webauthn_credential_script, if_supported,
    keep_prf_keys_script,
    post_assertion_options_script, post_attestation_options_script,
    post_webauthn_credential_script, put_webauthn_credential_script, replace_prf_keys_script,
    CreateLoginCredentialRequestModel, UpdatePrfKeysRequestModel,
};
use crate::handlers::{authorize_script, display_name};
use crate::models::{
    DisableAuthenticatorDataModel, DisableTwoFactorDataModel, EnableAuthenticatorDataModel,
    PasswordOrOtpDataModel, TwoFactorModel, TwoFactorType,
};
use crate::resume::{lemma_done, lemma_more, lemma_same, lemma_single, lemma_then, steady};
use crate::types::{LoginResponseModel, PasskeyConfigModel, RegistrationResponseModel};
use crate::webauthn::ceremony::{
    finish_assertion_script, finish_ceremony_registration_script, finish_login_script,
    finish_registration_script, start_ceremony_registration_script, start_login_assertion_script,
};
use crate::webauthn::compat::{
    named_registration, read_registration_script, receive_assertion_script,
    receive_registration_script,
};
use crate::webauthn::login::{finish_login_assertion_script, start_login_registration_script};
use crate::webauthn::prf::{
    create_prf_credential_script, create_prf_credential_statement,
    get_login_row_id_by_credential_id_script, get_login_row_id_by_credential_id_statement,
    list_login_credentials_with_prf_script, list_login_credentials_with_prf_statement,
    update_prf_keys_script, update_prf_keys_statement,
};
use crate::webauthn::store::{
    delete_login_credential_script, delete_login_credential_statement,
    delete_twofactor_credential_by_provider_id_script,
    delete_twofactor_credential_by_provider_id_statement, list_twofactor_credentials_script,
    list_twofactor_credentials_statement, twofactor_provider_id_exists_script,
    twofactor_provider_id_exists_statement, StoreModeModel,
};
use crate::webauthn::verify_origin_and_align_config_script;

verus! {

/// Checking who the caller is takes two replies.
proof fn steady_authorize(
    user_id: Seq<char>,
    data: PasswordOrOtpDataModel,
    replies: Seq<ReplyModel>,
)
    ensures
        steady(
            |r: Seq<ReplyModel>| authorize_script(user_id, data, r),
            replies,
            0,
            2,
        ),
{
    let whole = |r: Seq<ReplyModel>| authorize_script(user_id, data, r);
    let ask_user = |r: Seq<ReplyModel>| find_user_script(user_id, r, 0);
    lemma_single(ask_user, ActionModel::FindUser { user_id }, replies, 0);
    if let Ok((user, after_user)) = ask_user(replies) {
        let ask_verified = |r: Seq<ReplyModel>| verify_user_script(data, r, after_user);
        lemma_single(ask_verified, ActionModel::VerifyUser { data }, replies, after_user);
        if let Ok((verified, after_verified)) = ask_verified(replies) {
            lemma_done(whole, replies, after_verified);
        }
        lemma_then(ask_verified, whole, replies, after_user, 1, 0);
    }
    lemma_then(ask_user, whole, replies, 0, 1, 1);
}

/// Listing second factors takes one reply.
proof fn steady_list_user_twofactors(
    user_id: Seq<char>,
    replies: Seq<ReplyModel>,
    at: int,
)
    requires
        0 <= at <= replies.len(),
    ensures
        steady(
            |r: Seq<ReplyModel>| list_user_twofactors_script(user_id, r, at),
            replies,
            at,
            1,
        ),
{
    let whole = |r: Seq<ReplyModel>| list_user_twofactors_script(user_id, r, at);
    let ask_found = |r: Seq<ReplyModel>| fetch_twofactors_script(
        select_twofactors(user_id),
        select_security_key(user_id),
        r,
        at,
    );
    lemma_single(
        ask_found,
        ActionModel::FetchTwoFactors {
            twofactors: select_twofactors(user_id),
            security_keys: select_security_key(user_id),
        },
        replies,
        at,
    );
    if let Ok((found, after_found)) = ask_found(replies) {
        lemma_done(whole, replies, after_found);
    }
    lemma_then(ask_found, whole, replies, at, 1, 0);
}

/// Making sure of a recovery code takes at most three replies.
proof fn steady_generate_recovery_code_for_user(
    user_id: Seq<char>,
    replies: Seq<ReplyModel>,
    at: int,
)
    requires
        0 <= at <= replies.len(),
    ensures
        steady(
            |r: Seq<ReplyModel>| generate_recovery_code_for_user_script(user_id, r, at),
            replies,
            at,
            3,
        ),
{
    let whole = |r: Seq<ReplyModel>| generate_recovery_code_for_user_script(user_id, r, at);
    let ask_row = |r: Seq<ReplyModel>| fetch_recovery_code_script(
        select_recovery_code(user_id),
        r,
        at,
    );
    lemma_single(
        ask_row,
        ActionModel::Fetch { statement: select_recovery_code(user_id), rows: Rows::RecoveryCode },
        replies,
        at,
    );
    if let Ok((row, after_row)) = ask_row(replies) {
        match row {
            None => {
                lemma_done(whole, replies, after_row);
                lemma_more(whole, replies, after_row, 0, 2);
            },
            Some(Some(_)) => {
                lemma_done(whole, replies, after_row);
                lemma_more(whole, replies, after_row, 0, 2);
            },
            Some(None) => {
                let ask_code = |r: Seq<ReplyModel>| generate_recovery_code_script(r, after_row);
                lemma_single(ask_code, ActionModel::GenerateRecoveryCode, replies, after_row);
                if let Ok((code, after_code)) = ask_code(replies) {
                    let ask_changed = |r: Seq<ReplyModel>| execute_or_database_script(
                        set_recovery_code(user_id, code),
                        r,
                        after_code,
                    );
                    lemma_single(
                        ask_changed,
                        ActionModel::Execute { statement: set_recovery_code(user_id, code) },
                        replies,
                        after_code,
                    );
                    if let Ok((changed, after_changed)) = ask_changed(replies) {
                        lemma_done(whole, replies, after_changed);
                    }
                    lemma_then(ask_changed, whole, replies, after_code, 1, 0);
                }
                lemma_then(ask_code, whole, replies, after_row, 1, 1);
            },
        }
    }
    lemma_then(ask_row, whole, replies, at, 1, 2);
}

/// Taking away a recovery code takes at most two replies.
proof fn steady_clear_recovery_if_no_twofactor(
    user_id: Seq<char>,
    replies: Seq<ReplyModel>,
    at: int,
)
    requires
        0 <= at <= replies.len(),
    ensures
        steady(
            |r: Seq<ReplyModel>| clear_recovery_if_no_twofactor_script(user_id, r, at),
            replies,
            at,
            2,
        ),
{
    let whole = |r: Seq<ReplyModel>| clear_recovery_if_no_twofactor_script(user_id, r, at);
    let ask_remaining = |r: Seq<ReplyModel>| list_user_twofactors_script(user_id, r, at);
    steady_list_user_twofactors(user_id, replies, at);
    if let Ok((remaining, after_remaining)) = ask_remaining(replies) {
        if twofactor_enabled(remaining) {
            lemma_done(whole, replies, after_remaining);
            lemma_more(whole, replies, after_remaining, 0, 1);
        } else {
            let ask_changed = |r: Seq<ReplyModel>| execute_or_database_script(
                clear_recovery_code(user_id),
                r,
                after_remaining,
            );
            lemma_single(
                ask_changed,
                ActionModel::Execute { statement: clear_recovery_code(user_id) },
                replies,
                after_remaining,
            );
            if let Ok((changed, after_changed)) = ask_changed(replies) {
                lemma_done(whole, replies, after_changed);
            }
            lemma_then(ask_changed, whole, replies, after_remaining, 1, 0);
        }
    }
    lemma_then(ask_remaining, whole, replies, at, 1, 1);
}

/// Putting in a new secret takes at most six replies.
proof fn steady_replace_authenticator(
    user_id: Seq<char>,
    key: Seq<char>,
    step: i64,
    replies: Seq<ReplyModel>,
    at: int,
)
    requires
        0 <= at <= replies.len(),
    ensures
        steady(
            |r: Seq<ReplyModel>| replace_authenticator_script(user_id, key, step, r, at),
            replies,
            at,
            6,
        ),
{
    let whole = |r: Seq<ReplyModel>| replace_authenticator_script(user_id, key, step, r, at);
    let ask_deleted = |r: Seq<ReplyModel>| execute_or_database_script(
        delete_twofactor(user_id, TwoFactorType::Authenticator.number()),
        r,
        at,
    );
    lemma_single(
        ask_deleted,
        ActionModel::Execute {
            statement: delete_twofactor(user_id, TwoFactorType::Authenticator.number()),
        },
        replies,
        at,
    );
    if let Ok((deleted, after_deleted)) = ask_deleted(replies) {
        let ask_twofactor = |r: Seq<ReplyModel>| new_twofactor_script(
            user_id,
            TwoFactorType::Authenticator,
            key,
            r,
            after_deleted,
        );
        lemma_single(
            ask_twofactor,
            ActionModel::NewTwoFactor { user_id, type_: TwoFactorType::Authenticator, secret: key },
            replies,
            after_deleted,
        );
        if let Ok((twofactor, after_twofactor)) = ask_twofactor(replies) {
            let ask_changed = |r: Seq<ReplyModel>| execute_or_database_script(
                insert_twofactor(TwoFactorModel { last_used: step, ..twofactor }),
                r,
                after_twofactor,
            );
            lemma_single(
                ask_changed,
                ActionModel::Execute {
                    statement: insert_twofactor(TwoFactorModel { last_used: step, ..twofactor }),
                },
                replies,
                after_twofactor,
            );
            if let Ok((changed, after_changed)) = ask_changed(replies) {
                let ask_done = |r: Seq<ReplyModel>| generate_recovery_code_for_user_script(
                    user_id,
                    r,
                    after_changed,
                );
                steady_generate_recovery_code_for_user(user_id, replies, after_changed);
                if let Ok((done, after_done)) = ask_done(replies) {
                    lemma_done(whole, replies, after_done);
                }
                lemma_then(ask_done, whole, replies, after_changed, 3, 0);
            }
            lemma_then(ask_changed, whole, replies, after_twofactor, 1, 3);
        }
        lemma_then(ask_twofactor, whole, replies, after_deleted, 1, 4);
    }
    lemma_then(ask_deleted, whole, replies, at, 1, 5);
}

/// Deleting a second factor takes one reply.
proof fn steady_delete_type(user_id: Seq<char>, type_: i32, replies: Seq<ReplyModel>, at: int)
    requires
        0 <= at <= replies.len(),
    ensures
        steady(
            |r: Seq<ReplyModel>| delete_type_script(user_id, type_, r, at),
            replies,
            at,
            1,
        ),
{
    let whole = |r: Seq<ReplyModel>| delete_type_script(user_id, type_, r, at);
    let statement = if type_ == TwoFactorType::Webauthn.number() {
        delete_security_keys(user_id)
    } else {
        delete_twofactor(user_id, type_)
    };
    lemma_single(whole, ActionModel::Execute { statement }, replies, at);
}

/// Deleting one-time passwords takes at most four replies.
proof fn steady_delete_authenticator(
    user_id: Seq<char>,
    type_: i32,
    twofactor: TwoFactorModel,
    key: Seq<char>,
    replies: Seq<ReplyModel>,
    at: int,
)
    requires
        0 <= at <= replies.len(),
    ensures
        steady(
            |r: Seq<ReplyModel>| delete_authenticator_script(user_id, type_, twofactor, key, r, at),
            replies,
            at,
            4,
        ),
{
    let whole = |r: Seq<ReplyModel>| delete_authenticator_script(
        user_id,
        type_,
        twofactor,
        key,
        r,
        at,
    );
    let ask_same = |r: Seq<ReplyModel>| compare_secrets_script(twofactor.data, key, r, at);
    lemma_single(
        ask_same,
        ActionModel::CompareSecrets { stored: twofactor.data, given: key },
        replies,
        at,
    );
    if let Ok((same, after_same)) = ask_same(replies) {
        if !same {
            lemma_done(whole, replies, after_same);
            lemma_more(whole, replies, after_same, 0, 3);
        } else {
            let ask_changed = |r: Seq<ReplyModel>| execute_or_database_script(
                delete_twofactor_row(twofactor.uuid),
                r,
                after_same,
            );
            lemma_single(
                ask_changed,
                ActionModel::Execute { statement: delete_twofactor_row(twofactor.uuid) },
                replies,
                after_same,
            );
            if let Ok((changed, after_changed)) = ask_changed(replies) {
                let ask_done = |r: Seq<ReplyModel>| clear_recovery_if_no_twofactor_script(
                    user_id,
                    r,
                    after_changed,
                );
                steady_clear_recovery_if_no_twofactor(user_id, replies, after_changed);
                if let Ok((done, after_done)) = ask_done(replies) {
                    lemma_done(whole, replies, after_done);
                }
                lemma_then(ask_done, whole, replies, after_changed, 2, 0);
            }
            lemma_then(ask_changed, whole, replies, after_same, 1, 2);
        }
    }
    lemma_then(ask_same, whole, replies, at, 1, 3);
}

/// Answering with security keys takes one reply.
proof fn steady_answer_keys(
    user_id: Seq<char>,
    on: bool,
    object: Seq<char>,
    replies: Seq<ReplyModel>,
    at: int,
)
    requires
        0 <= at <= replies.len(),
    ensures
        steady(
            |r: Seq<ReplyModel>| answer_keys_script(user_id, on, object, r, at),
            replies,
            at,
            1,
        ),
{
    let whole = |r: Seq<ReplyModel>| answer_keys_script(user_id, on, object, r, at);
    let ask_rows = |r: Seq<ReplyModel>| list_twofactor_credentials_script(user_id, r, at);
    lemma_single(
        ask_rows,
        ActionModel::Fetch {
            statement: list_twofactor_credentials_statement(user_id),
            rows: Rows::SecurityKeys,
        },
        replies,
        at,
    );
    if let Ok((rows, after_rows)) = ask_rows(replies) {
        if all_numbered(rows) {
            lemma_done(whole, replies, after_rows);
        } else {
            lemma_done(whole, replies, after_rows);
        }
    }
    lemma_then(ask_rows, whole, replies, at, 1, 0);
}

/// Looking at an origin takes at most one reply.
proof fn steady_verify_origin_and_align_config(
    config: PasskeyConfigModel,
    client_data_json: Seq<char>,
    replies: Seq<ReplyModel>,
    at: int,
)
    requires
        0 <= at <= replies.len(),
    ensures
        steady(
            |r: Seq<ReplyModel>| verify_origin_and_align_config_script(
                config,
                client_data_json,
                r,
                at,
            ),
            replies,
            at,
            1,
        ),
{
    let whole = |r: Seq<ReplyModel>| verify_origin_and_align_config_script(
        config,
        client_data_json,
        r,
        at,
    );
    match base64url_bytes(client_data_json) {
        None => {
            lemma_done(whole, replies, at);
            lemma_more(whole, replies, at, 0, 1);
        },
        Some(client_data) => {
            let ask_origin = |r: Seq<ReplyModel>| read_origin_script(client_data, r, at);
            lemma_single(ask_origin, ActionModel::ReadOrigin { client_data }, replies, at);
            if let Ok((origin, after_origin)) = ask_origin(replies) {
                lemma_done(whole, replies, after_origin);
            }
            lemma_then(ask_origin, whole, replies, at, 1, 0);
        },
    }
}

/// Finishing a registration takes at most two replies.
proof fn steady_finish_ceremony_registration(
    mode: StoreModeModel,
    user_id: Seq<char>,
    config: PasskeyConfigModel,
    response: RegistrationResponseModel,
    now_ms: i64,
    replies: Seq<ReplyModel>,
    at: int,
)
    requires
        0 <= at <= replies.len(),
    ensures
        steady(
            |r: Seq<ReplyModel>| finish_ceremony_registration_script(
                mode,
                user_id,
                config,
                response,
                now_ms,
                r,
                at,
            ),
            replies,
            at,
            2,
        ),
{
    let whole = |r: Seq<ReplyModel>| finish_ceremony_registration_script(
        mode,
        user_id,
        config,
        response,
        now_ms,
        r,
        at,
    );
    let ask_aligned_config = |r: Seq<ReplyModel>| verify_origin_and_align_config_script(
        config,
        response.response.client_data_json,
        r,
        at,
    );
    steady_verify_origin_and_align_config(config, response.response.client_data_json, replies, at);
    if let Ok((aligned_config, after_aligned_config)) = ask_aligned_config(replies) {
        let rest = |r: Seq<ReplyModel>| finish_registration_script(
            mode,
            user_id,
            aligned_config,
            response,
            now_ms,
            r,
            after_aligned_config,
        );
        lemma_single(
            rest,
            ActionModel::FinishRegistration {
                mode,
                user_id,
                config: aligned_config,
                attestation: response,
                now_ms,
            },
            replies,
            after_aligned_config,
        );
        lemma_same(rest, whole, replies, after_aligned_config, 1);
    }
    lemma_then(ask_aligned_config, whole, replies, at, 1, 1);
}

/// Finishing an assertion is one conversation of at most two replies.
pub proof fn law_finish_assertion_is_steady(
    mode: StoreModeModel,
    config: PasskeyConfigModel,
    response: LoginResponseModel,
    expected: Option<Seq<char>>,
    now_ms: i64,
    replies: Seq<ReplyModel>,
    at: int,
)
    requires
        0 <= at <= replies.len(),
    ensures
        steady(
            |r: Seq<ReplyModel>| finish_assertion_script(
                mode,
                config,
                response,
                expected,
                now_ms,
                r,
                at,
            ),
            replies,
            at,
            2,
        ),
{
    let whole = |r: Seq<ReplyModel>| finish_assertion_script(
        mode,
        config,
        response,
        expected,
        now_ms,
        r,
        at,
    );
    let ask_aligned_config = |r: Seq<ReplyModel>| verify_origin_and_align_config_script(
        config,
        response.response.client_data_json,
        r,
        at,
    );
    steady_verify_origin_and_align_config(config, response.response.client_data_json, replies, at);
    if let Ok((aligned_config, after_aligned_config)) = ask_aligned_config(replies) {
        let ask_owner = |r: Seq<ReplyModel>| finish_login_script(
            mode,
            aligned_config,
            response,
            now_ms,
            "WebAuthn verification failed"@,
            r,
            after_aligned_config,
        );
        lemma_single(
            ask_owner,
            ActionModel::FinishLogin { mode, config: aligned_config, assertion: response, now_ms },
            replies,
            after_aligned_config,
        );
        if let Ok((owner, after_owner)) = ask_owner(replies) {
            lemma_done(whole, replies, after_owner);
        }
        lemma_then(ask_owner, whole, replies, after_aligned_config, 1, 0);
    }
    lemma_then(ask_aligned_config, whole, replies, at, 1, 1);
}

/// Registering a security key takes at most seven replies.
proof fn steady_register_key(
    config: PasskeyConfigModel,
    user_id: Seq<char>,
    provider_id: i32,
    data: WebauthnRegisterDataModel,
    replies: Seq<ReplyModel>,
    at: int,
)
    requires
        0 <= at <= replies.len(),
    ensures
        steady(
            |r: Seq<ReplyModel>| register_key_script(config, user_id, provider_id, data, r, at),
            replies,
            at,
            7,
        ),
{
    let whole = |r: Seq<ReplyModel>| register_key_script(config, user_id, provider_id, data, r, at);
    let ask_now_ms = |r: Seq<ReplyModel>| read_clock_script(r, at);
    lemma_single(ask_now_ms, ActionModel::ReadClock, replies, at);
    if let Ok((now_ms, after_now_ms)) = ask_now_ms(replies) {
        let ask_registration = |r: Seq<ReplyModel>| receive_registration_script(
            data.device_response,
            Some(data.name),
            r,
            after_now_ms,
        );
        lemma_single(
            ask_registration,
            ActionModel::ParseRegistration { body: data.device_response },
            replies,
            after_now_ms,
        );
        if let Ok((registration, after_registration)) = ask_registration(replies) {
            let ask_done = |r: Seq<ReplyModel>| finish_ceremony_registration_script(
                StoreModeModel::TwoFactorRegistration { provider_id, original_name: data.name },
                user_id,
                config,
                registration,
                now_ms,
                r,
                after_registration,
            );
            steady_finish_ceremony_registration(
                StoreModeModel::TwoFactorRegistration { provider_id, original_name: data.name },
                user_id,
                config,
                registration,
                now_ms,
                replies,
                after_registration,
            );
            if let Ok((done, after_done)) = ask_done(replies) {
                let rest = |r: Seq<ReplyModel>| generate_recovery_code_for_user_script(
                    user_id,
                    r,
                    after_done,
                );
                steady_generate_recovery_code_for_user(user_id, replies, after_done);
                lemma_same(rest, whole, replies, after_done, 3);
            }
            lemma_then(ask_done, whole, replies, after_registration, 2, 3);
        }
        lemma_then(ask_registration, whole, replies, after_now_ms, 1, 5);
    }
    lemma_then(ask_now_ms, whole, replies, at, 1, 6);
}

/// Answering with login passkeys takes one reply.
proof fn steady_answer_credentials(
    user_id: Seq<char>,
    replies: Seq<ReplyModel>,
    at: int,
)
    requires
        0 <= at <= replies.len(),
    ensures
        steady(
            |r: Seq<ReplyModel>| answer_credentials_script(user_id, r, at),
            replies,
            at,
            1,
        ),
{
    let whole = |r: Seq<ReplyModel>| answer_credentials_script(user_id, r, at);
    let ask_credentials = |r: Seq<ReplyModel>| list_login_credentials_with_prf_script(user_id, r, at);
    lemma_single(
        ask_credentials,
        ActionModel::Fetch {
            statement: list_login_credentials_with_prf_statement(user_id),
            rows: Rows::LoginCredentials,
        },
        replies,
        at,
    );
    if let Ok((credentials, after_credentials)) = ask_credentials(replies) {
        lemma_done(whole, replies, after_credentials);
    }
    lemma_then(ask_credentials, whole, replies, at, 1, 0);
}

/// Keeping the keys of a new login passkey takes at most three replies.
proof fn steady_keep_prf_keys(
    user_id: Seq<char>,
    credential_id: Seq<char>,
    data: CreateLoginCredentialRequestModel,
    now_ms: i64,
    replies: Seq<ReplyModel>,
    at: int,
)
    requires
        0 <= at <= replies.len(),
    ensures
        steady(
            |r: Seq<ReplyModel>| keep_prf_keys_script(user_id, credential_id, data, now_ms, r, at),
            replies,
            at,
            3,
        ),
{
    let whole = |r: Seq<ReplyModel>| keep_prf_keys_script(
        user_id,
        credential_id,
        data,
        now_ms,
        r,
        at,
    );
    let ask_found = |r: Seq<ReplyModel>| get_login_row_id_by_credential_id_script(
        credential_id,
        r,
        at,
    );
    lemma_single(
        ask_found,
        ActionModel::Fetch {
            statement: get_login_row_id_by_credential_id_statement(credential_id),
            rows: Rows::LoginRowId,
        },
        replies,
        at,
    );
    if let Ok((found, after_found)) = ask_found(replies) {
        match found {
            None => {
                lemma_done(whole, replies, after_found);
                lemma_more(whole, replies, after_found, 0, 2);
            },
            Some(row_id) => {
                let ask_done = |r: Seq<ReplyModel>| create_prf_credential_script(
                    row_id,
                    data.supports_prf == Some(true),
                    if_supported(data.supports_prf == Some(true), data.encrypted_user_key),
                    if_supported(data.supports_prf == Some(true), data.encrypted_public_key),
                    if_supported(data.supports_prf == Some(true), data.encrypted_private_key),
                    now_ms,
                    r,
                    after_found,
                );
                lemma_single(
                    ask_done,
                    ActionModel::Execute {
                        statement: create_prf_credential_statement(
                            row_id,
                            data.supports_prf == Some(true),
                            if_supported(data.supports_prf == Some(true), data.encrypted_user_key),
                            if_supported(
                                data.supports_prf == Some(true),
                                data.encrypted_public_key,
                            ),
                            if_supported(
                                data.supports_prf == Some(true),
                                data.encrypted_private_key,
                            ),
                            now_ms,
                        ),
                    },
                    replies,
                    after_found,
                );
                if let Ok((done, after_done)) = ask_done(replies) {
                    let rest = |r: Seq<ReplyModel>| answer_credentials_script(
                        user_id,
                        r,
                        after_done,
                    );
                    steady_answer_credentials(user_id, replies, after_done);
                    lemma_same(rest, whole, replies, after_done, 1);
                }
                lemma_then(ask_done, whole, replies, after_found, 1, 1);
            },
        }
    }
    lemma_then(ask_found, whole, replies, at, 1, 2);
}

/// Storing the keys of a login passkey takes at most two replies.
proof fn steady_update_prf_keys(
    row_id: Seq<char>,
    user_key: Seq<char>,
    public_key: Seq<char>,
    private_key: Seq<char>,
    now_ms: i64,
    replies: Seq<ReplyModel>,
    at: int,
)
    requires
        0 <= at <= replies.len(),
    ensures
        steady(
            |r: Seq<ReplyModel>| update_prf_keys_script(
                row_id,
                user_key,
                public_key,
                private_key,
                now_ms,
                r,
                at,
            ),
            replies,
            at,
            2,
        ),
{
    let whole = |r: Seq<ReplyModel>| update_prf_keys_script(
        row_id,
        user_key,
        public_key,
        private_key,
        now_ms,
        r,
        at,
    );
    let update = update_prf_keys_statement(row_id, user_key, public_key, private_key, now_ms);
    let ask_changed = |r: Seq<ReplyModel>| execute_script(update, r, at);
    lemma_single(ask_changed, ActionModel::Execute { statement: update }, replies, at);
    if let Ok((changed, after_changed)) = ask_changed(replies) {
        if changed == Some(false) {
            let rest = |r: Seq<ReplyModel>| create_prf_credential_script(
                row_id,
                true,
                Some(user_key),
                Some(public_key),
                Some(private_key),
                now_ms,
                r,
                after_changed,
            );
            lemma_single(
                rest,
                ActionModel::Execute {
                    statement: create_prf_credential_statement(
                        row_id,
                        true,
                        Some(user_key),
                        Some(public_key),
                        Some(private_key),
                        now_ms,
                    ),
                },
                replies,
                after_changed,
            );
            lemma_same(rest, whole, replies, after_changed, 1);
        } else {
            lemma_done(whole, replies, after_changed);
            lemma_more(whole, replies, after_changed, 0, 1);
        }
    }
    lemma_then(ask_changed, whole, replies, at, 1, 1);
}

/// Replacing the keys of a login passkey takes at most four replies.
proof fn steady_replace_prf_keys(
    user_id: Seq<char>,
    credential_id: Seq<char>,
    data: UpdatePrfKeysRequestModel,
    now_ms: i64,
    replies: Seq<ReplyModel>,
    at: int,
)
    requires
        0 <= at <= replies.len(),
    ensures
        steady(
            |r: Seq<ReplyModel>| replace_prf_keys_script(
                user_id,
                credential_id,
                data,
                now_ms,
                r,
                at,
            ),
            replies,
            at,
            4,
        ),
{
    let whole = |r: Seq<ReplyModel>| replace_prf_keys_script(
        user_id,
        credential_id,
        data,
        now_ms,
        r,
        at,
    );
    let ask_found = |r: Seq<ReplyModel>| get_login_row_id_by_credential_id_script(
        credential_id,
        r,
        at,
    );
    lemma_single(
        ask_found,
        ActionModel::Fetch {
            statement: get_login_row_id_by_credential_id_statement(credential_id),
            rows: Rows::LoginRowId,
        },
        replies,
        at,
    );
    if let Ok((found, after_found)) = ask_found(replies) {
        match found {
            None => {
                lemma_done(whole, replies, after_found);
                lemma_more(whole, replies, after_found, 0, 3);
            },
            Some(row_id) => {
                let ask_done = |r: Seq<ReplyModel>| update_prf_keys_script(
                    row_id,
                    data.encrypted_user_key,
                    data.encrypted_public_key,
                    data.encrypted_private_key,
                    now_ms,
                    r,
                    after_found,
                );
                steady_update_prf_keys(
                    row_id,
                    data.encrypted_user_key,
                    data.encrypted_public_key,
                    data.encrypted_private_key,
                    now_ms,
                    replies,
                    after_found,
                );
                if let Ok((done, after_done)) = ask_done(replies) {
                    let rest = |r: Seq<ReplyModel>| answer_credentials_script(
                        user_id,
                        r,
                        after_done,
                    );
                    steady_answer_credentials(user_id, replies, after_done);
                    lemma_same(rest, whole, replies, after_done, 1);
                }
                lemma_then(ask_done, whole, replies, after_found, 2, 1);
            },
        }
    }
    lemma_then(ask_found, whole, replies, at, 1, 3);
}

/// Telling a client of second factors takes one reply.
proof fn steady_tell_providers(
    twofactors: Seq<TwoFactorModel>,
    replies: Seq<ReplyModel>,
    at: int,
)
    requires
        0 <= at <= replies.len(),
    ensures
        steady(|r: Seq<ReplyModel>| tell_providers_script(twofactors, r, at), replies, at, 1),
{
    let whole = |r: Seq<ReplyModel>| tell_providers_script(twofactors, r, at);
    let ask_providers = |r: Seq<ReplyModel>| describe_providers_script(twofactors, r, at);
    lemma_single(
        ask_providers,
        ActionModel::DescribeProviders { providers: twofactors },
        replies,
        at,
    );
    if let Ok((providers, after_providers)) = ask_providers(replies) {
        lemma_done(whole, replies, after_providers);
    }
    lemma_then(ask_providers, whole, replies, at, 1, 0);
}

/// `GET /api/two-factor` is one conversation of at most two replies.
pub proof fn law_get_twofactor_is_steady(user_id: Seq<char>, replies: Seq<ReplyModel>)
    ensures
        steady(|r: Seq<ReplyModel>| get_twofactor_script(user_id, r), replies, 0, 2),
{
    let whole = |r: Seq<ReplyModel>| get_twofactor_script(user_id, r);
    let ask_twofactors = |r: Seq<ReplyModel>| list_user_twofactors_script(user_id, r, 0);
    steady_list_user_twofactors(user_id, replies, 0);
    if let Ok((twofactors, after_twofactors)) = ask_twofactors(replies) {
        let enabled = only_enabled(twofactors);
        let rest = |r: Seq<ReplyModel>| tell_providers_script(enabled, r, after_twofactors);
        steady_tell_providers(enabled, replies, after_twofactors);
        lemma_same(rest, whole, replies, after_twofactors, 1);
    }
    lemma_then(ask_twofactors, whole, replies, 0, 1, 1);
}

/// `POST /api/two-factor/get-authenticator` is one conversation of at most four replies.
pub proof fn law_get_authenticator_is_steady(
    user_id: Seq<char>,
    data: PasswordOrOtpDataModel,
    replies: Seq<ReplyModel>,
)
    ensures
        steady(
            |r: Seq<ReplyModel>| get_authenticator_script(user_id, data, r),
            replies,
            0,
            4,
        ),
{
    let whole = |r: Seq<ReplyModel>| get_authenticator_script(user_id, data, r);
    let ask_user = |r: Seq<ReplyModel>| authorize_script(user_id, data, r);
    steady_authorize(user_id, data, replies);
    if let Ok((user, after_user)) = ask_user(replies) {
        let ask_existing = |r: Seq<ReplyModel>| fetch_twofactor_script(
            select_twofactor(user_id, TwoFactorType::Authenticator.number()),
            r,
            after_user,
        );
        lemma_single(
            ask_existing,
            ActionModel::Fetch {
                statement: select_twofactor(user_id, TwoFactorType::Authenticator.number()),
                rows: Rows::TwoFactor,
            },
            replies,
            after_user,
        );
        if let Ok((existing, after_existing)) = ask_existing(replies) {
            match existing {
                Some(_) => {
                    lemma_done(whole, replies, after_existing);
                    lemma_more(whole, replies, after_existing, 0, 1);
                },
                None => {
                    let ask_secret = |r: Seq<ReplyModel>| generate_totp_secret_script(r, after_existing);
                    lemma_single(
                        ask_secret,
                        ActionModel::GenerateTotpSecret,
                        replies,
                        after_existing,
                    );
                    if let Ok((secret, after_secret)) = ask_secret(replies) {
                        lemma_done(whole, replies, after_secret);
                    }
                    lemma_then(ask_secret, whole, replies, after_existing, 1, 0);
                },
            }
        }
        lemma_then(ask_existing, whole, replies, after_user, 1, 1);
    }
    lemma_then(ask_user, whole, replies, 0, 2, 2);
}

/// `POST /api/two-factor/authenticator` is one conversation of at most eleven replies.
pub proof fn law_activate_authenticator_is_steady(
    user_id: Seq<char>,
    data: EnableAuthenticatorDataModel,
    key: Seq<char>,
    replies: Seq<ReplyModel>,
)
    ensures
        steady(
            |r: Seq<ReplyModel>| activate_authenticator_script(user_id, data, key, r),
            replies,
            0,
            11,
        ),
{
    let whole = |r: Seq<ReplyModel>| activate_authenticator_script(user_id, data, key, r);
    let ask_user = |r: Seq<ReplyModel>| authorize_script(user_id, data.credentials(), r);
    steady_authorize(user_id, data.credentials(), replies);
    if let Ok((user, after_user)) = ask_user(replies) {
        let ask_secret = |r: Seq<ReplyModel>| decode_base32_script(key, r, after_user);
        lemma_single(ask_secret, ActionModel::DecodeBase32 { text: key }, replies, after_user);
        if let Ok((secret, after_secret)) = ask_secret(replies) {
            if secret.len() != 20 {
                lemma_done(whole, replies, after_secret);
                lemma_more(whole, replies, after_secret, 0, 8);
            } else {
                let ask_existing = |r: Seq<ReplyModel>| fetch_twofactor_script(
                    select_twofactor(user_id, TwoFactorType::Authenticator.number()),
                    r,
                    after_secret,
                );
                lemma_single(
                    ask_existing,
                    ActionModel::Fetch {
                        statement: select_twofactor(user_id, TwoFactorType::Authenticator.number()),
                        rows: Rows::TwoFactor,
                    },
                    replies,
                    after_secret,
                );
                if let Ok((existing, after_existing)) = ask_existing(replies) {
                    let ask_step = |r: Seq<ReplyModel>| validate_totp_script(
                        data.token,
                        key,
                        last_step(existing),
                        r,
                        after_existing,
                    );
                    lemma_single(
                        ask_step,
                        ActionModel::ValidateTotp {
                            token: data.token,
                            key,
                            last_used: last_step(existing),
                        },
                        replies,
                        after_existing,
                    );
                    if let Ok((step, after_step)) = ask_step(replies) {
                        let rest = |r: Seq<ReplyModel>| replace_authenticator_script(
                            user_id,
                            key,
                            step,
                            r,
                            after_step,
                        );
                        steady_replace_authenticator(user_id, key, step, replies, after_step);
                        lemma_same(rest, whole, replies, after_step, 6);
                    }
                    lemma_then(ask_step, whole, replies, after_existing, 1, 6);
                }
                lemma_then(ask_existing, whole, replies, after_secret, 1, 7);
            }
        }
        lemma_then(ask_secret, whole, replies, after_user, 1, 8);
    }
    lemma_then(ask_user, whole, replies, 0, 2, 9);
}

/// `POST /api/two-factor/disable` is one conversation of at most five replies.
pub proof fn law_disable_twofactor_is_steady(
    user_id: Seq<char>,
    data: DisableTwoFactorDataModel,
    replies: Seq<ReplyModel>,
)
    ensures
        steady(
            |r: Seq<ReplyModel>| disable_twofactor_script(user_id, data, r),
            replies,
            0,
            5,
        ),
{
    let whole = |r: Seq<ReplyModel>| disable_twofactor_script(user_id, data, r);
    let ask_user = |r: Seq<ReplyModel>| authorize_script(user_id, data.credentials(), r);
    steady_authorize(user_id, data.credentials(), replies);
    if let Ok((user, after_user)) = ask_user(replies) {
        let ask_changed = |r: Seq<ReplyModel>| delete_type_script(
            user_id,
            data.type_,
            r,
            after_user,
        );
        steady_delete_type(user_id, data.type_, replies, after_user);
        if let Ok((changed, after_changed)) = ask_changed(replies) {
            let ask_done = |r: Seq<ReplyModel>| clear_recovery_if_no_twofactor_script(
                user_id,
                r,
                after_changed,
            );
            steady_clear_recovery_if_no_twofactor(user_id, replies, after_changed);
            if let Ok((done, after_done)) = ask_done(replies) {
                lemma_done(whole, replies, after_done);
            }
            lemma_then(ask_done, whole, replies, after_changed, 2, 0);
        }
        lemma_then(ask_changed, whole, replies, after_user, 1, 2);
    }
    lemma_then(ask_user, whole, replies, 0, 2, 3);
}

/// `DELETE /api/two-factor/authenticator` is one conversation of at most seven replies.
pub proof fn law_disable_authenticator_is_steady(
    user_id: Seq<char>,
    data: DisableAuthenticatorDataModel,
    key: Seq<char>,
    replies: Seq<ReplyModel>,
)
    ensures
        steady(
            |r: Seq<ReplyModel>| disable_authenticator_script(user_id, data, key, r),
            replies,
            0,
            7,
        ),
{
    let whole = |r: Seq<ReplyModel>| disable_authenticator_script(user_id, data, key, r);
    if data.type_ != TwoFactorType::Authenticator.number() {
        lemma_done(whole, replies, 0);
        lemma_more(whole, replies, 0, 0, 7);
    } else {
        let ask_user = |r: Seq<ReplyModel>| authorize_script(user_id, data.credentials(), r);
        steady_authorize(user_id, data.credentials(), replies);
        if let Ok((user, after_user)) = ask_user(replies) {
            let ask_existing = |r: Seq<ReplyModel>| fetch_twofactor_script(
                select_twofactor(user_id, data.type_),
                r,
                after_user,
            );
            lemma_single(
                ask_existing,
                ActionModel::Fetch {
                    statement: select_twofactor(user_id, data.type_),
                    rows: Rows::TwoFactor,
                },
                replies,
                after_user,
            );
            if let Ok((existing, after_existing)) = ask_existing(replies) {
                match existing {
                    None => {
                        lemma_done(whole, replies, after_existing);
                        lemma_more(whole, replies, after_existing, 0, 4);
                    },
                    Some(twofactor) => {
                        let rest = |r: Seq<ReplyModel>| delete_authenticator_script(
                            user_id,
                            data.type_,
                            twofactor,
                            key,
                            r,
                            after_existing,
                        );
                        steady_delete_authenticator(
                            user_id,
                            data.type_,
                            twofactor,
                            key,
                            replies,
                            after_existing,
                        );
                        lemma_same(rest, whole, replies, after_existing, 4);
                    },
                }
            }
            lemma_then(ask_existing, whole, replies, after_user, 1, 4);
        }
        lemma_then(ask_user, whole, replies, 0, 2, 5);
    }
}

/// `POST /api/two-factor/get-recover` is one conversation of at most two replies.
pub proof fn law_get_recover_is_steady(
    user_id: Seq<char>,
    data: PasswordOrOtpDataModel,
    replies: Seq<ReplyModel>,
)
    ensures
        steady(
            |r: Seq<ReplyModel>| get_recover_script(user_id, data, r),
            replies,
            0,
            2,
        ),
{
    let whole = |r: Seq<ReplyModel>| get_recover_script(user_id, data, r);
    let ask_user = |r: Seq<ReplyModel>| authorize_script(user_id, data, r);
    steady_authorize(user_id, data, replies);
    if let Ok((user, after_user)) = ask_user(replies) {
        lemma_done(whole, replies, after_user);
    }
    lemma_then(ask_user, whole, replies, 0, 2, 0);
}

/// `POST /api/two-factor/get-webauthn` is one conversation of at most three replies.
pub proof fn law_get_webauthn_twofactor_is_steady(
    user_id: Seq<char>,
    data: PasswordOrOtpDataModel,
    replies: Seq<ReplyModel>,
)
    ensures
        steady(
            |r: Seq<ReplyModel>| get_webauthn_twofactor_script(user_id, data, r),
            replies,
            0,
            3,
        ),
{
    let whole = |r: Seq<ReplyModel>| get_webauthn_twofactor_script(user_id, data, r);
    let ask_user = |r: Seq<ReplyModel>| authorize_script(user_id, data, r);
    steady_authorize(user_id, data, replies);
    if let Ok((user, after_user)) = ask_user(replies) {
        let rest = |r: Seq<ReplyModel>| answer_keys_script(
            user_id,
            false,
            "twoFactorWebAuthn"@,
            r,
            after_user,
        );
        steady_answer_keys(user_id, false, "twoFactorWebAuthn"@, replies, after_user);
        lemma_same(rest, whole, replies, after_user, 1);
    }
    lemma_then(ask_user, whole, replies, 0, 2, 1);
}

/// `POST /api/two-factor/get-webauthn-challenge` is one conversation of at most four replies.
pub proof fn law_get_webauthn_challenge_is_steady(
    config: PasskeyConfigModel,
    user_id: Seq<char>,
    email: Seq<char>,
    data: PasswordOrOtpDataModel,
    replies: Seq<ReplyModel>,
)
    ensures
        steady(
            |r: Seq<ReplyModel>| get_webauthn_challenge_script(config, user_id, email, data, r),
            replies,
            0,
            4,
        ),
{
    let whole = |r: Seq<ReplyModel>| get_webauthn_challenge_script(config, user_id, email, data, r);
    let ask_user = |r: Seq<ReplyModel>| authorize_script(user_id, data, r);
    steady_authorize(user_id, data, replies);
    if let Ok((user, after_user)) = ask_user(replies) {
        let ask_now_ms = |r: Seq<ReplyModel>| read_clock_script(r, after_user);
        lemma_single(ask_now_ms, ActionModel::ReadClock, replies, after_user);
        if let Ok((now_ms, after_now_ms)) = ask_now_ms(replies) {
            let ask_options = |r: Seq<ReplyModel>| start_ceremony_registration_script(
                StoreModeModel::TwoFactor,
                user_id,
                email,
                display_name(user, email),
                config,
                now_ms,
                r,
                after_now_ms,
            );
            lemma_single(
                ask_options,
                ActionModel::StartRegistration {
                    mode: StoreModeModel::TwoFactor,
                    user_id,
                    username: email,
                    display_name: display_name(user, email),
                    config,
                    now_ms,
                },
                replies,
                after_now_ms,
            );
            if let Ok((options, after_options)) = ask_options(replies) {
                lemma_done(whole, replies, after_options);
            }
            lemma_then(ask_options, whole, replies, after_now_ms, 1, 0);
        }
        lemma_then(ask_now_ms, whole, replies, after_user, 1, 1);
    }
    lemma_then(ask_user, whole, replies, 0, 2, 2);
}

/// `POST /api/two-factor/webauthn` is one conversation of at most eleven replies.
pub proof fn law_activate_webauthn_is_steady(
    config: PasskeyConfigModel,
    user_id: Seq<char>,
    data: WebauthnRegisterDataModel,
    replies: Seq<ReplyModel>,
)
    ensures
        steady(
            |r: Seq<ReplyModel>| activate_webauthn_script(config, user_id, data, r),
            replies,
            0,
            11,
        ),
{
    let whole = |r: Seq<ReplyModel>| activate_webauthn_script(config, user_id, data, r);
    let ask_user = |r: Seq<ReplyModel>| authorize_script(user_id, data.credentials(), r);
    steady_authorize(user_id, data.credentials(), replies);
    if let Ok((user, after_user)) = ask_user(replies) {
        match data.id.as_i32() {
            Err(_) => {
                lemma_done(whole, replies, after_user);
                lemma_more(whole, replies, after_user, 0, 9);
            },
            Ok(provider_id) => {
                let ask_taken = |r: Seq<ReplyModel>| twofactor_provider_id_exists_script(
                    user_id,
                    provider_id,
                    r,
                    after_user,
                );
                lemma_single(
                    ask_taken,
                    ActionModel::Fetch {
                        statement: twofactor_provider_id_exists_statement(user_id, provider_id),
                        rows: Rows::Presence,
                    },
                    replies,
                    after_user,
                );
                if let Ok((taken, after_taken)) = ask_taken(replies) {
                    if taken {
                        lemma_done(whole, replies, after_taken);
                        lemma_more(whole, replies, after_taken, 0, 8);
                    } else {
                        let ask_done = |r: Seq<ReplyModel>| register_key_script(
                            config,
                            user_id,
                            provider_id,
                            data,
                            r,
                            after_taken,
                        );
                        steady_register_key(
                            config,
                            user_id,
                            provider_id,
                            data,
                            replies,
                            after_taken,
                        );
                        if let Ok((done, after_done)) = ask_done(replies) {
                            let rest = |r: Seq<ReplyModel>| answer_keys_script(
                                user_id,
                                true,
                                "twoFactorU2f"@,
                                r,
                                after_done,
                            );
                            steady_answer_keys(user_id, true, "twoFactorU2f"@, replies, after_done);
                            lemma_same(rest, whole, replies, after_done, 1);
                        }
                        lemma_then(ask_done, whole, replies, after_taken, 7, 1);
                    }
                }
                lemma_then(ask_taken, whole, replies, after_user, 1, 8);
            },
        }
    }
    lemma_then(ask_user, whole, replies, 0, 2, 9);
}

/// `DELETE /api/two-factor/webauthn` is one conversation of at most six replies.
pub proof fn law_delete_webauthn_is_steady(
    user_id: Seq<char>,
    data: WebauthnDeleteDataModel,
    replies: Seq<ReplyModel>,
)
    ensures
        steady(
            |r: Seq<ReplyModel>| delete_webauthn_script(user_id, data, r),
            replies,
            0,
            6,
        ),
{
    let whole = |r: Seq<ReplyModel>| delete_webauthn_script(user_id, data, r);
    let ask_user = |r: Seq<ReplyModel>| authorize_script(user_id, data.credentials(), r);
    steady_authorize(user_id, data.credentials(), replies);
    if let Ok((user, after_user)) = ask_user(replies) {
        match data.id.as_i32() {
            Err(_) => {
                lemma_done(whole, replies, after_user);
                lemma_more(whole, replies, after_user, 0, 4);
            },
            Ok(provider_id) => {
                let ask_deleted = |r: Seq<ReplyModel>| delete_twofactor_credential_by_provider_id_script(
                    user_id,
                    provider_id,
                    r,
                    after_user,
                );
                lemma_single(
                    ask_deleted,
                    ActionModel::Execute {
                        statement: delete_twofactor_credential_by_provider_id_statement(
                            user_id,
                            provider_id,
                        ),
                    },
                    replies,
                    after_user,
                );
                if let Ok((deleted, after_deleted)) = ask_deleted(replies) {
                    if !deleted {
                        lemma_done(whole, replies, after_deleted);
                        lemma_more(whole, replies, after_deleted, 0, 3);
                    } else {
                        let ask_done = |r: Seq<ReplyModel>| clear_recovery_if_no_twofactor_script(
                            user_id,
                            r,
                            after_deleted,
                        );
                        steady_clear_recovery_if_no_twofactor(user_id, replies, after_deleted);
                        if let Ok((done, after_done)) = ask_done(replies) {
                            let rest = |r: Seq<ReplyModel>| answer_keys_script(
                                user_id,
                                false,
                                "twoFactorU2f"@,
                                r,
                                after_done,
                            );
                            steady_answer_keys(
                                user_id,
                                false,
                                "twoFactorU2f"@,
                                replies,
                                after_done,
                            );
                            lemma_same(rest, whole, replies, after_done, 1);
                        }
                        lemma_then(ask_done, whole, replies, after_deleted, 2, 1);
                    }
                }
                lemma_then(ask_deleted, whole, replies, after_user, 1, 3);
            },
        }
    }
    lemma_then(ask_user, whole, replies, 0, 2, 4);
}

/// `GET /api/webauthn` is one conversation of at most one reply.
pub proof fn law_get_webauthn_credentials_is_steady(
    user_id: Seq<char>,
    replies: Seq<ReplyModel>,
)
    ensures
        steady(
            |r: Seq<ReplyModel>| answer_credentials_script(user_id, r, 0),
            replies,
            0,
            1,
        ),
{
    let whole = |r: Seq<ReplyModel>| answer_credentials_script(user_id, r, 0);
    let rest = |r: Seq<ReplyModel>| answer_credentials_script(user_id, r, 0);
    steady_answer_credentials(user_id, replies, 0);
    lemma_same(rest, whole, replies, 0, 1);
}

/// `POST /api/webauthn/attestation-options` is one conversation of at most four replies.
pub proof fn law_post_attestation_options_is_steady(
    config: PasskeyConfigModel,
    user_id: Seq<char>,
    email: Seq<char>,
    data: PasswordOrOtpDataModel,
    replies: Seq<ReplyModel>,
)
    ensures
        steady(
            |r: Seq<ReplyModel>| post_attestation_options_script(config, user_id, email, data, r),
            replies,
            0,
            4,
        ),
{
    let whole = |r: Seq<ReplyModel>| post_attestation_options_script(
        config,
        user_id,
        email,
        data,
        r,
    );
    let ask_user = |r: Seq<ReplyModel>| authorize_script(user_id, data, r);
    steady_authorize(user_id, data, replies);
    if let Ok((user, after_user)) = ask_user(replies) {
        let ask_now_ms = |r: Seq<ReplyModel>| read_clock_script(r, after_user);
        lemma_single(ask_now_ms, ActionModel::ReadClock, replies, after_user);
        if let Ok((now_ms, after_now_ms)) = ask_now_ms(replies) {
            let ask_options = |r: Seq<ReplyModel>| start_login_registration_script(
                StoreModeModel::Login,
                user_id,
                email,
                display_name(user, email),
                config,
                now_ms,
                r,
                after_now_ms,
            );
            lemma_single(
                ask_options,
                ActionModel::StartRegistration {
                    mode: StoreModeModel::Login,
                    user_id,
                    username: email,
                    display_name: display_name(user, email),
                    config,
                    now_ms,
                },
                replies,
                after_now_ms,
            );
            if let Ok((options, after_options)) = ask_options(replies) {
                lemma_done(whole, replies, after_options);
            }
            lemma_then(ask_options, whole, replies, after_now_ms, 1, 0);
        }
        lemma_then(ask_now_ms, whole, replies, after_user, 1, 1);
    }
    lemma_then(ask_user, whole, replies, 0, 2, 2);
}

/// `POST /api/webauthn` is one conversation of at most six replies.
pub proof fn law_post_webauthn_credential_is_steady(
    config: PasskeyConfigModel,
    row_id: Seq<char>,
    user_id: Seq<char>,
    data: CreateLoginCredentialRequestModel,
    replies: Seq<ReplyModel>,
)
    ensures
        steady(
            |r: Seq<ReplyModel>| post_webauthn_credential_script(config, row_id, user_id, data, r),
            replies,
            0,
            6,
        ),
{
    let whole = |r: Seq<ReplyModel>| post_webauthn_credential_script(
        config,
        row_id,
        user_id,
        data,
        r,
    );
    let ask_now_ms = |r: Seq<ReplyModel>| read_clock_script(r, 0);
    lemma_single(ask_now_ms, ActionModel::ReadClock, replies, 0);
    if let Ok((now_ms, after_now_ms)) = ask_now_ms(replies) {
        let ask_compat = |r: Seq<ReplyModel>| read_registration_script(
            data.device_response,
            r,
            after_now_ms,
        );
        lemma_single(
            ask_compat,
            ActionModel::ParseRegistration { body: data.device_response },
            replies,
            after_now_ms,
        );
        if let Ok((compat, after_compat)) = ask_compat(replies) {
            let ask_done = |r: Seq<ReplyModel>| finish_registration_script(
                StoreModeModel::LoginRegistration { row_id, original_name: data.name },
                user_id,
                config,
                named_registration(compat, Some(data.name)),
                now_ms,
                r,
                after_compat,
            );
            lemma_single(
                ask_done,
                ActionModel::FinishRegistration {
                    mode: StoreModeModel::LoginRegistration { row_id, original_name: data.name },
                    user_id,
                    config,
                    attestation: named_registration(compat, Some(data.name)),
                    now_ms,
                },
                replies,
                after_compat,
            );
            if let Ok((done, after_done)) = ask_done(replies) {
                let rest = |r: Seq<ReplyModel>| keep_prf_keys_script(
                    user_id,
                    compat.id,
                    data,
                    now_ms,
                    r,
                    after_done,
                );
                steady_keep_prf_keys(user_id, compat.id, data, now_ms, replies, after_done);
                lemma_same(rest, whole, replies, after_done, 3);
            }
            lemma_then(ask_done, whole, replies, after_compat, 1, 3);
        }
        lemma_then(ask_compat, whole, replies, after_now_ms, 1, 4);
    }
    lemma_then(ask_now_ms, whole, replies, 0, 1, 5);
}

/// `POST /api/webauthn/assertion-options` is one conversation of at most four replies.
pub proof fn law_post_assertion_options_is_steady(
    config: PasskeyConfigModel,
    user_id: Seq<char>,
    data: PasswordOrOtpDataModel,
    replies: Seq<ReplyModel>,
)
    ensures
        steady(
            |r: Seq<ReplyModel>| post_assertion_options_script(config, user_id, data, r),
            replies,
            0,
            4,
        ),
{
    let whole = |r: Seq<ReplyModel>| post_assertion_options_script(config, user_id, data, r);
    let ask_user = |r: Seq<ReplyModel>| authorize_script(user_id, data, r);
    steady_authorize(user_id, data, replies);
    if let Ok((user, after_user)) = ask_user(replies) {
        let ask_now_ms = |r: Seq<ReplyModel>| read_clock_script(r, after_user);
        lemma_single(ask_now_ms, ActionModel::ReadClock, replies, after_user);
        if let Ok((now_ms, after_now_ms)) = ask_now_ms(replies) {
            let ask_options = |r: Seq<ReplyModel>| start_login_assertion_script(
                StoreModeModel::Login,
                config,
                now_ms,
                r,
                after_now_ms,
            );
            lemma_single(
                ask_options,
                ActionModel::StartLogin { mode: StoreModeModel::Login, config, now_ms },
                replies,
                after_now_ms,
            );
            if let Ok((options, after_options)) = ask_options(replies) {
                lemma_done(whole, replies, after_options);
            }
            lemma_then(ask_options, whole, replies, after_now_ms, 1, 0);
        }
        lemma_then(ask_now_ms, whole, replies, after_user, 1, 1);
    }
    lemma_then(ask_user, whole, replies, 0, 2, 2);
}

/// `PUT /api/webauthn` is one conversation of at most seven replies.
pub proof fn law_put_webauthn_credential_is_steady(
    config: PasskeyConfigModel,
    user_id: Seq<char>,
    data: UpdatePrfKeysRequestModel,
    replies: Seq<ReplyModel>,
)
    ensures
        steady(
            |r: Seq<ReplyModel>| put_webauthn_credential_script(config, user_id, data, r),
            replies,
            0,
            7,
        ),
{
    let whole = |r: Seq<ReplyModel>| put_webauthn_credential_script(config, user_id, data, r);
    let ask_now_ms = |r: Seq<ReplyModel>| read_clock_script(r, 0);
    lemma_single(ask_now_ms, ActionModel::ReadClock, replies, 0);
    if let Ok((now_ms, after_now_ms)) = ask_now_ms(replies) {
        let ask_assertion = |r: Seq<ReplyModel>| receive_assertion_script(
            data.device_response,
            r,
            after_now_ms,
        );
        lemma_single(
            ask_assertion,
            ActionModel::ParseAssertion { body: data.device_response },
            replies,
            after_now_ms,
        );
        if let Ok((assertion, after_assertion)) = ask_assertion(replies) {
            let ask_owner = |r: Seq<ReplyModel>| finish_login_assertion_script(
                StoreModeModel::Login,
                config,
                assertion.1,
                now_ms,
                r,
                after_assertion,
            );
            lemma_single(
                ask_owner,
                ActionModel::FinishLogin {
                    mode: StoreModeModel::Login,
                    config,
                    assertion: assertion.1,
                    now_ms,
                },
                replies,
                after_assertion,
            );
            if let Ok((owner, after_owner)) = ask_owner(replies) {
                if owner != user_id {
                    lemma_done(whole, replies, after_owner);
                    lemma_more(whole, replies, after_owner, 0, 4);
                } else {
                    let rest = |r: Seq<ReplyModel>| replace_prf_keys_script(
                        user_id,
                        assertion.0,
                        data,
                        now_ms,
                        r,
                        after_owner,
                    );
                    steady_replace_prf_keys(
                        user_id,
                        assertion.0,
                        data,
                        now_ms,
                        replies,
                        after_owner,
                    );
                    lemma_same(rest, whole, replies, after_owner, 4);
                }
            }
            lemma_then(ask_owner, whole, replies, after_assertion, 1, 4);
        }
        lemma_then(ask_assertion, whole, replies, after_now_ms, 1, 5);
    }
    lemma_then(ask_now_ms, whole, replies, 0, 1, 6);
}

/// `POST /api/webauthn/{id}/delete` is one conversation of at most three replies.
pub proof fn law_delete_webauthn_credential_is_steady(
    user_id: Seq<char>,
    id: Seq<char>,
    data: PasswordOrOtpDataModel,
    replies: Seq<ReplyModel>,
)
    ensures
        steady(
            |r: Seq<ReplyModel>| delete_webauthn_credential_script(user_id, id, data, r),
            replies,
            0,
            3,
        ),
{
    let whole = |r: Seq<ReplyModel>| delete_webauthn_credential_script(user_id, id, data, r);
    let ask_user = |r: Seq<ReplyModel>| authorize_script(user_id, data, r);
    steady_authorize(user_id, data, replies);
    if let Ok((user, after_user)) = ask_user(replies) {
        let ask_deleted = |r: Seq<ReplyModel>| delete_login_credential_script(
            user_id,
            id,
            r,
            after_user,
        );
        lemma_single(
            ask_deleted,
            ActionModel::Execute { statement: delete_login_credential_statement(user_id, id) },
            replies,
            after_user,
        );
        if let Ok((deleted, after_deleted)) = ask_deleted(replies) {
            if deleted {
                lemma_done(whole, replies, after_deleted);
            } else {
                lemma_done(whole, replies, after_deleted);
            }
        }
        lemma_then(ask_deleted, whole, replies, after_user, 1, 0);
    }
    lemma_then(ask_user, whole, replies, 0, 2, 1);
}

} // verus!
