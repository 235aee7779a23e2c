//! Ceremonies of security keys, checked against the configured origin alone.
pub use crate::webauthn::ceremony::ToBitwardenJson;

use vstd::prelude::*;
use crate::error::{bad_request, AppErrorModel};
use crate::flow::{chain, progress, Progress, ProgressModel, Reply, ReplyModel, Stop, StopModel};
use crate::text::same_text;
use crate::types::{
    LoginResponse, LoginResponseModel, PasskeyConfig, PasskeyConfigModel,
    PublicKeyCredentialCreationOptions, PublicKeyCredentialCreationOptionsModel,
    PublicKeyCredentialRequestOptions, RegistrationResponse,
};
use crate::webauthn::ceremony::{
    self, finish_login, finish_login_script, finish_registration, finish_registration_script,
    start_registration, start_registration_script,
};
use crate::webauthn::store::{CredentialUsage, StoreMode, StoreModeModel, WebauthnCredentialRow};

verus! {

/// Options for registering a security key.
pub open spec fn start_2fa_registration_script(
    mode: StoreModeModel,
    user_id: Seq<char>,
    username: Seq<char>,
    display_name: Seq<char>,
    config: PasskeyConfigModel,
    now_ms: i64,
    replies: Seq<ReplyModel>,
    at: int,
) -> ProgressModel<PublicKeyCredentialCreationOptionsModel> {
    chain(
        start_registration_script(
            mode,
            user_id,
            username,
            display_name,
            config,
            now_ms,
            replies,
            at,
        ),
        |options: PublicKeyCredentialCreationOptionsModel, at: int|
            Ok(
                (
                    PublicKeyCredentialCreationOptionsModel {
                        authenticator_selection: Some(CredentialUsage::TwoFactor.selection()),
                        ..options
                    },
                    at,
                ),
            ),
    )
}

/// Options for registering a security key: it need not verify the user, whatever the store is for.
pub fn start_2fa_registration(
    mode: StoreMode,
    user_id: &str,
    username: &str,
    display_name: &str,
    config: &PasskeyConfig,
    now_ms: i64,
    replies: &Vec<Reply>,
    at: usize,
) -> (result: Progress<PublicKeyCredentialCreationOptions>)
    ensures
        progress(result) == start_2fa_registration_script(
            mode.deep_view(),
            user_id@,
            username@,
            display_name@,
            config.deep_view(),
            now_ms,
            replies.deep_view(),
            at as int,
        ),
{
    let (options, at) = start_registration(
        mode,
        user_id,
        username,
        display_name,
        config,
        now_ms,
        replies,
        at,
    )?;
    let mut options = options;
    options.authenticator_selection = Some(CredentialUsage::TwoFactor.authenticator_selection());
    Ok((options, at))
}

/// Finishes the registration of a security key.
pub fn finish_2fa_registration(
    mode: StoreMode,
    user_id: &str,
    config: &PasskeyConfig,
    response: RegistrationResponse,
    now_ms: i64,
    replies: &Vec<Reply>,
    at: usize,
) -> (result: Progress<()>)
    ensures
        progress(result) == finish_registration_script(
            mode.deep_view(),
            user_id@,
            config.deep_view(),
            response.deep_view(),
            now_ms,
            replies.deep_view(),
            at as int,
        ),
{
    finish_registration(mode, user_id, config, response, now_ms, replies, at)
}

/// Options for the second step of a login, with one of these security keys.
pub fn start_2fa_assertion(
    mode: StoreMode,
    config: &PasskeyConfig,
    user_creds: &[WebauthnCredentialRow],
    now_ms: i64,
    replies: &Vec<Reply>,
    at: usize,
) -> (result: Progress<PublicKeyCredentialRequestOptions>)
    ensures
        progress(result) == ceremony::start_2fa_assertion_script(
            mode.deep_view(),
            config.deep_view(),
            user_creds.deep_view(),
            now_ms,
            replies.deep_view(),
            at as int,
        ),
{
    ceremony::start_2fa_assertion(mode, config, user_creds, now_ms, replies, at)
}

/// Finishes the second step of a login of the expected user: that user.
pub open spec fn finish_2fa_assertion_script(
    mode: StoreModeModel,
    config: PasskeyConfigModel,
    response: LoginResponseModel,
    expected_user_id: Seq<char>,
    now_ms: i64,
    replies: Seq<ReplyModel>,
    at: int,
) -> ProgressModel<Seq<char>> {
    chain(
        finish_login_script(
            mode,
            config,
            response,
            now_ms,
            "WebAuthn verification failed"@,
            replies,
            at,
        ),
        |owner: Seq<char>, at: int|
            if owner == expected_user_id {
                Ok((owner, at))
            } else {
                Err(StopModel::Fail(AppErrorModel::BadRequest("WebAuthn verification failed"@)))
            },
    )
}

/// Finishes the second step of a login: the user who owns the security key. Any key of the expected
/// user will do, and no other.
pub fn finish_2fa_assertion<'a>(
    mode: StoreMode,
    config: &PasskeyConfig,
    response: LoginResponse,
    expected_user_id: &str,
    now_ms: i64,
    replies: &'a Vec<Reply>,
    at: usize,
) -> (result: Progress<&'a String>)
    ensures
        progress(result) == finish_2fa_assertion_script(
            mode.deep_view(),
            config.deep_view(),
            response.deep_view(),
            expected_user_id@,
            now_ms,
            replies.deep_view(),
            at as int,
        ),
{
    let (owner, at) = finish_login(
        mode,
        config,
        response,
        now_ms,
        "WebAuthn verification failed",
        replies,
        at,
    )?;
    if !same_text(owner.as_str(), expected_user_id) {
        return Err(Stop::Fail(bad_request("WebAuthn verification failed")));
    }
    Ok((owner, at))
}

/// The second step of a login gets through exactly where the passkey protocol accepts a security key
/// of the expected user, and then gives that user; every other outcome of the protocol is refused
/// with one and the same error.
pub proof fn law_second_step_is_of_the_expected_user(
    mode: StoreModeModel,
    config: PasskeyConfigModel,
    response: LoginResponseModel,
    expected_user_id: Seq<char>,
    now_ms: i64,
    replies: Seq<ReplyModel>,
    at: int,
    finished: Result<Seq<char>, Seq<char>>,
)
    requires
        0 <= at < replies.len(),
        replies[at] == ReplyModel::LoginFinished(finished),
    ensures
        finish_2fa_assertion_script(
            mode,
            config,
            response,
            expected_user_id,
            now_ms,
            replies,
            at,
        ) == if finished == Ok::<Seq<char>, Seq<char>>(expected_user_id) {
            Ok::<(Seq<char>, int), StopModel>((expected_user_id, at + 1))
        } else {
            Err(StopModel::Fail(AppErrorModel::BadRequest("WebAuthn verification failed"@)))
        },
{
}

} // verus!
