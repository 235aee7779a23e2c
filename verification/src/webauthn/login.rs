//! Ceremonies of login passkeys, checked against the configured origin alone.
use vstd::prelude::*;
use crate::flow::{chain, progress, Progress, ProgressModel, Reply, ReplyModel};
use crate::types::{
    LoginResponse, LoginResponseModel, PasskeyConfig, PasskeyConfigModel,
    PublicKeyCredentialCreationOptions, PublicKeyCredentialCreationOptionsModel,
    PublicKeyCredentialRequestOptions, RegistrationResponse,
};
use crate::webauthn::ceremony::{
    self, finish_login, finish_login_script, finish_registration, finish_registration_script,
    start_registration, start_registration_script,
};
use crate::webauthn::store::{CredentialUsage, StoreMode, StoreModeModel};

verus! {

/// Options for registering a passkey that can log in without a password.
pub open spec fn start_login_registration_script(
    mode: StoreModeModel,
    user_id: Seq<char>,
    username: Seq<char>,
    display_name: Seq<char>,
    config: PasskeyConfigModel,
    now_ms: i64,
    replies: Seq<ReplyModel>,
    at: int,
) -> ProgressModel<PublicKeyCredentialCreationOptionsModel> {
    chain(
        start_registration_script(
            mode,
            user_id,
            username,
            display_name,
            config,
            now_ms,
            replies,
            at,
        ),
        |options: PublicKeyCredentialCreationOptionsModel, at: int|
            Ok(
                (
                    PublicKeyCredentialCreationOptionsModel {
                        authenticator_selection: Some(CredentialUsage::Login.selection()),
                        ..options
                    },
                    at,
                ),
            ),
    )
}

/// Options for registering a passkey that can log in without a password: it must be discoverable
/// and verify the user, whatever the store is for.
pub fn start_login_registration(
    mode: StoreMode,
    user_id: &str,
    username: &str,
    display_name: &str,
    config: &PasskeyConfig,
    now_ms: i64,
    replies: &Vec<Reply>,
    at: usize,
) -> (result: Progress<PublicKeyCredentialCreationOptions>)
    ensures
        progress(result) == start_login_registration_script(
            mode.deep_view(),
            user_id@,
            username@,
            display_name@,
            config.deep_view(),
            now_ms,
            replies.deep_view(),
            at as int,
        ),
{
    let (options, at) = start_registration(
        mode,
        user_id,
        username,
        display_name,
        config,
        now_ms,
        replies,
        at,
    )?;
    let mut options = options;
    options.authenticator_selection = Some(CredentialUsage::Login.authenticator_selection());
    Ok((options, at))
}

/// Finishes the registration of a login passkey.
pub fn finish_login_registration(
    mode: StoreMode,
    user_id: &str,
    config: &PasskeyConfig,
    response: RegistrationResponse,
    now_ms: i64,
    replies: &Vec<Reply>,
    at: usize,
) -> (result: Progress<()>)
    ensures
        progress(result) == finish_registration_script(
            mode.deep_view(),
            user_id@,
            config.deep_view(),
            response.deep_view(),
            now_ms,
            replies.deep_view(),
            at as int,
        ),
{
    finish_registration(mode, user_id, config, response, now_ms, replies, at)
}

/// Options for a login with any discoverable passkey.
pub fn start_login_assertion(
    mode: StoreMode,
    config: &PasskeyConfig,
    now_ms: i64,
    replies: &Vec<Reply>,
    at: usize,
) -> (result: Progress<PublicKeyCredentialRequestOptions>)
    ensures
        progress(result) == ceremony::start_login_assertion_script(
            mode.deep_view(),
            config.deep_view(),
            now_ms,
            replies.deep_view(),
            at as int,
        ),
{
    ceremony::start_login_assertion(mode, config, now_ms, replies, at)
}

/// Finishes a login: the user who owns the passkey.
pub open spec fn finish_login_assertion_script(
    mode: StoreModeModel,
    config: PasskeyConfigModel,
    response: LoginResponseModel,
    now_ms: i64,
    replies: Seq<ReplyModel>,
    at: int,
) -> ProgressModel<Seq<char>> {
    finish_login_script(mode, config, response, now_ms, "WebAuthn login failed"@, replies, at)
}

/// Finishes a login: the user who owns the passkey.
pub fn finish_login_assertion<'a>(
    mode: StoreMode,
    config: &PasskeyConfig,
    response: LoginResponse,
    now_ms: i64,
    replies: &'a Vec<Reply>,
    at: usize,
) -> (result: Progress<&'a String>)
    ensures
        progress(result) == finish_login_assertion_script(
            mode.deep_view(),
            config.deep_view(),
            response.deep_view(),
            now_ms,
            replies.deep_view(),
            at as int,
        ),
{
    finish_login(mode, config, response, now_ms, "WebAuthn login failed", replies, at)
}

} // verus!
