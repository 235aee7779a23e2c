//! What the WebAuthn ceremonies ask of the passkey protocol, and what they hand on of its answers.
use vstd::prelude::*;
use super::{asks, gives, is_unexpected, refuses};
use crate::encoding::base64url_bytes;
use crate::flow::{ActionModel, ReplyModel};
use crate::json::json_string_list;
use crate::types::{
    AuthenticatorSelectionModel, CredentialDescriptorModel, LoginResponseModel, PasskeyConfigModel,
    PublicKeyCredentialCreationOptionsModel, PublicKeyCredentialRequestOptionsModel,
    RegistrationResponseModel,
};
use crate::webauthn::allowed_origin;
use crate::webauthn::ceremony::{
    descriptor_with, descriptors, finish_assertion_script, finish_ceremony_registration_script,
    finish_login_script, finish_registration_script, start_2fa_assertion_script,
    start_assertion_for_script, start_ceremony_registration_script, start_login_assertion_script,
    start_login_script, start_registration_script,
};
use crate::webauthn::login::{finish_login_assertion_script, start_login_registration_script};
use crate::webauthn::store::{StoreModeModel, WebauthnCredentialRowModel};
use crate::webauthn::twofactor::{finish_2fa_assertion_script, start_2fa_registration_script};

verus! {

/// Nothing of the options differs but what the client is told of the authenticator.
pub open spec fn same_but_selection(
    a: PublicKeyCredentialCreationOptionsModel,
    b: PublicKeyCredentialCreationOptionsModel,
) -> bool {
    &&& a.rp == b.rp
    &&& a.user == b.user
    &&& a.challenge == b.challenge
    &&& a.pub_key_cred_params == b.pub_key_cred_params
    &&& a.timeout == b.timeout
    &&& a.exclude_credentials == b.exclude_credentials
    &&& a.attestation == b.attestation
}

/// The authenticator must keep the passkey and check who uses it.
pub open spec fn passwordless(selection: Option<AuthenticatorSelectionModel>) -> bool {
    &&& selection matches Some(selection)
    &&& selection.authenticator_attachment is None
    &&& selection.require_resident_key == Some(true)
    &&& selection.resident_key == Some("required"@)
    &&& selection.user_verification == Some("required"@)
}

/// The authenticator keeps nothing and need not check who uses it.
pub open spec fn second_factor(selection: Option<AuthenticatorSelectionModel>) -> bool {
    &&& selection matches Some(selection)
    &&& selection.authenticator_attachment is None
    &&& selection.require_resident_key == Some(false)
    &&& selection.resident_key is None
    &&& selection.user_verification == Some("discouraged"@)
}

/// A registration starts at the passkey protocol with the user, the relying party and the time it
/// was given. The options come back as they are but for the demands on the authenticator, which
/// follow from what the credential is for.
pub proof fn law_registration_starts(
    mode: StoreModeModel,
    user_id: Seq<char>,
    username: Seq<char>,
    display_name: Seq<char>,
    config: PasskeyConfigModel,
    now_ms: i64,
    started: Result<PublicKeyCredentialCreationOptionsModel, Seq<char>>,
    replies: Seq<ReplyModel>,
    at: int,
)
    requires
        0 <= at <= replies.len(),
        at < replies.len() ==> replies[at] == ReplyModel::RegistrationStarted(started),
    ensures
        ({
            let plain = start_registration_script(
                mode,
                user_id,
                username,
                display_name,
                config,
                now_ms,
                replies,
                at,
            );
            let ceremony = start_ceremony_registration_script(
                mode,
                user_id,
                username,
                display_name,
                config,
                now_ms,
                replies,
                at,
            );
            let login = start_login_registration_script(
                mode,
                user_id,
                username,
                display_name,
                config,
                now_ms,
                replies,
                at,
            );
            let twofactor = start_2fa_registration_script(
                mode,
                user_id,
                username,
                display_name,
                config,
                now_ms,
                replies,
                at,
            );
            let action = ActionModel::StartRegistration {
                mode,
                user_id,
                username,
                display_name,
                config,
                now_ms,
            };
            let complaint = "WebAuthn registration start failed"@;
            if at == replies.len() {
                &&& asks(plain, action)
                &&& asks(ceremony, action)
                &&& asks(login, action)
                &&& asks(twofactor, action)
            } else {
                match started {
                    Err(_) => {
                        &&& refuses(plain, complaint)
                        &&& refuses(ceremony, complaint)
                        &&& refuses(login, complaint)
                        &&& refuses(twofactor, complaint)
                    },
                    Ok(options) => {
                        &&& gives(plain, options, at + 1)
                        &&& ceremony matches Ok((given, end)) && {
                            &&& end == at + 1
                            &&& same_but_selection(given, options)
                            &&& match mode {
                                StoreModeModel::Login
                                | StoreModeModel::LoginRegistration { .. } => passwordless(
                                    given.authenticator_selection,
                                ),
                                StoreModeModel::TwoFactor
                                | StoreModeModel::TwoFactorRegistration { .. } => second_factor(
                                    given.authenticator_selection,
                                ),
                            }
                        }
                        &&& login matches Ok((given, end)) && {
                            &&& end == at + 1
                            &&& same_but_selection(given, options)
                            &&& passwordless(given.authenticator_selection)
                        }
                        &&& twofactor matches Ok((given, end)) && {
                            &&& end == at + 1
                            &&& same_but_selection(given, options)
                            &&& second_factor(given.authenticator_selection)
                        }
                    },
                }
            }
        }),
{
}

/// A registration that needs no look at the origin is finished with what was given, and ends as the
/// passkey protocol says.
pub proof fn law_registration_finishes(
    mode: StoreModeModel,
    user_id: Seq<char>,
    config: PasskeyConfigModel,
    attestation: RegistrationResponseModel,
    now_ms: i64,
    finished: Result<(), Seq<char>>,
    replies: Seq<ReplyModel>,
    at: int,
)
    requires
        0 <= at <= replies.len(),
        at < replies.len() ==> replies[at] == ReplyModel::RegistrationFinished(finished),
    ensures
        ({
            let result = finish_registration_script(
                mode,
                user_id,
                config,
                attestation,
                now_ms,
                replies,
                at,
            );
            if at == replies.len() {
                asks(
                    result,
                    ActionModel::FinishRegistration { mode, user_id, config, attestation, now_ms },
                )
            } else if finished is Ok {
                gives(result, (), at + 1)
            } else {
                refuses(result, "WebAuthn registration failed"@)
            }
        }),
{
}

/// A login that needs no look at the origin is finished with what was given, and ends with the
/// owner of the passkey. Why the passkey protocol refused is not told.
pub proof fn law_login_finishes(
    mode: StoreModeModel,
    config: PasskeyConfigModel,
    assertion: LoginResponseModel,
    expected_user_id: Seq<char>,
    now_ms: i64,
    complaint: Seq<char>,
    finished: Result<Seq<char>, Seq<char>>,
    replies: Seq<ReplyModel>,
    at: int,
)
    requires
        0 <= at <= replies.len(),
        at < replies.len() ==> replies[at] == ReplyModel::LoginFinished(finished),
    ensures
        ({
            let plain = finish_login_script(
                mode,
                config,
                assertion,
                now_ms,
                complaint,
                replies,
                at,
            );
            let login = finish_login_assertion_script(
                mode,
                config,
                assertion,
                now_ms,
                replies,
                at,
            );
            let twofactor = finish_2fa_assertion_script(
                mode,
                config,
                assertion,
                expected_user_id,
                now_ms,
                replies,
                at,
            );
            let action = ActionModel::FinishLogin { mode, config, assertion, now_ms };
            if at == replies.len() {
                &&& asks(plain, action)
                &&& asks(login, action)
                &&& asks(twofactor, action)
            } else {
                match finished {
                    Ok(owner) => {
                        &&& gives(plain, owner, at + 1)
                        &&& gives(login, owner, at + 1)
                        &&& owner == expected_user_id ==> gives(twofactor, owner, at + 1)
                        &&& owner != expected_user_id ==> refuses(
                            twofactor,
                            "WebAuthn verification failed"@,
                        )
                    },
                    Err(_) => {
                        &&& refuses(plain, complaint)
                        &&& refuses(login, "WebAuthn login failed"@)
                        &&& refuses(twofactor, "WebAuthn verification failed"@)
                    },
                }
            }
        }),
{
}

/// Client data that can be decoded is read for its origin before anything else happens.
pub proof fn law_origin_is_read_first(
    mode: StoreModeModel,
    user_id: Seq<char>,
    config: PasskeyConfigModel,
    registration: RegistrationResponseModel,
    assertion: LoginResponseModel,
    expected_user_id: Option<Seq<char>>,
    now_ms: i64,
    client_data: Seq<u8>,
    replies: Seq<ReplyModel>,
    at: int,
)
    requires
        at == replies.len(),
    ensures
        base64url_bytes(registration.response.client_data_json) == Some(client_data) ==> asks(
            finish_ceremony_registration_script(
                mode,
                user_id,
                config,
                registration,
                now_ms,
                replies,
                at,
            ),
            ActionModel::ReadOrigin { client_data },
        ),
        base64url_bytes(assertion.response.client_data_json) == Some(client_data) ==> asks(
            finish_assertion_script(
                mode,
                config,
                assertion,
                expected_user_id,
                now_ms,
                replies,
                at,
            ),
            ActionModel::ReadOrigin { client_data },
        ),
{
}

/// A client that speaks from an allowed origin is checked against that very origin: it takes the
/// place of the configured one, and everything else is handed on as it was given.
pub proof fn law_allowed_origin_is_handed_on(
    mode: StoreModeModel,
    user_id: Seq<char>,
    config: PasskeyConfigModel,
    registration: RegistrationResponseModel,
    assertion: LoginResponseModel,
    expected_user_id: Option<Seq<char>>,
    now_ms: i64,
    origin: Seq<char>,
    replies: Seq<ReplyModel>,
    at: int,
)
    requires
        0 <= at,
        replies.len() == at + 1,
        replies[at] == ReplyModel::Origin(Some(origin)),
        allowed_origin(config.origin, origin),
    ensures
        base64url_bytes(registration.response.client_data_json) is Some ==> asks(
            finish_ceremony_registration_script(
                mode,
                user_id,
                config,
                registration,
                now_ms,
                replies,
                at,
            ),
            ActionModel::FinishRegistration {
                mode,
                user_id,
                config: PasskeyConfigModel {
                    rp_id: config.rp_id,
                    rp_name: config.rp_name,
                    origin,
                    state_ttl: config.state_ttl,
                },
                attestation: registration,
                now_ms,
            },
        ),
        base64url_bytes(assertion.response.client_data_json) is Some ==> asks(
            finish_assertion_script(
                mode,
                config,
                assertion,
                expected_user_id,
                now_ms,
                replies,
                at,
            ),
            ActionModel::FinishLogin {
                mode,
                config: PasskeyConfigModel {
                    rp_id: config.rp_id,
                    rp_name: config.rp_name,
                    origin,
                    state_ttl: config.state_ttl,
                },
                assertion,
                now_ms,
            },
        ),
{
}

/// A client that names no origin, or one that is not allowed, is checked against the configuration
/// as it is, which the passkey protocol then compares with what the client said.
pub proof fn law_other_origins_change_nothing(
    mode: StoreModeModel,
    user_id: Seq<char>,
    config: PasskeyConfigModel,
    registration: RegistrationResponseModel,
    assertion: LoginResponseModel,
    expected_user_id: Option<Seq<char>>,
    now_ms: i64,
    origin: Option<Seq<char>>,
    replies: Seq<ReplyModel>,
    at: int,
)
    requires
        0 <= at,
        replies.len() == at + 1,
        replies[at] == ReplyModel::Origin(origin),
        origin is Some ==> !allowed_origin(config.origin, origin->0),
    ensures
        base64url_bytes(registration.response.client_data_json) is Some ==> asks(
            finish_ceremony_registration_script(
                mode,
                user_id,
                config,
                registration,
                now_ms,
                replies,
                at,
            ),
            ActionModel::FinishRegistration {
                mode,
                user_id,
                config,
                attestation: registration,
                now_ms,
            },
        ),
        base64url_bytes(assertion.response.client_data_json) is Some ==> asks(
            finish_assertion_script(
                mode,
                config,
                assertion,
                expected_user_id,
                now_ms,
                replies,
                at,
            ),
            ActionModel::FinishLogin { mode, config, assertion, now_ms },
        ),
{
}

/// Client data that cannot be decoded is not read for an origin: the passkey protocol gets it at
/// once, with the configuration as it is.
pub proof fn law_unreadable_client_data_goes_on(
    mode: StoreModeModel,
    user_id: Seq<char>,
    config: PasskeyConfigModel,
    registration: RegistrationResponseModel,
    assertion: LoginResponseModel,
    expected_user_id: Option<Seq<char>>,
    now_ms: i64,
    replies: Seq<ReplyModel>,
    at: int,
)
    requires
        at == replies.len(),
    ensures
        base64url_bytes(registration.response.client_data_json) is None ==> asks(
            finish_ceremony_registration_script(
                mode,
                user_id,
                config,
                registration,
                now_ms,
                replies,
                at,
            ),
            ActionModel::FinishRegistration {
                mode,
                user_id,
                config,
                attestation: registration,
                now_ms,
            },
        ),
        base64url_bytes(assertion.response.client_data_json) is None ==> asks(
            finish_assertion_script(
                mode,
                config,
                assertion,
                expected_user_id,
                now_ms,
                replies,
                at,
            ),
            ActionModel::FinishLogin { mode, config, assertion, now_ms },
        ),
{
}

/// How a ceremony ends that looked at the origin, or had none to look at: a registration as the
/// passkey protocol says, a login with the owner of the passkey, who must be the expected user
/// where one is expected.
pub proof fn law_ceremonies_end(
    mode: StoreModeModel,
    user_id: Seq<char>,
    config: PasskeyConfigModel,
    registration: RegistrationResponseModel,
    assertion: LoginResponseModel,
    expected_user_id: Option<Seq<char>>,
    now_ms: i64,
    origin: Option<Seq<char>>,
    registered: Result<(), Seq<char>>,
    finished: Result<Seq<char>, Seq<char>>,
    before: Seq<ReplyModel>,
)
    ensures
        ({
            let read = base64url_bytes(registration.response.client_data_json) is Some;
            let replies = (if read {
                before.push(ReplyModel::Origin(origin))
            } else {
                before
            }).push(ReplyModel::RegistrationFinished(registered));
            let result = finish_ceremony_registration_script(
                mode,
                user_id,
                config,
                registration,
                now_ms,
                replies,
                before.len() as int,
            );
            if registered is Ok {
                gives(result, (), replies.len() as int)
            } else {
                refuses(result, "WebAuthn registration failed"@)
            }
        }),
        ({
            let read = base64url_bytes(assertion.response.client_data_json) is Some;
            let replies = (if read {
                before.push(ReplyModel::Origin(origin))
            } else {
                before
            }).push(ReplyModel::LoginFinished(finished));
            let result = finish_assertion_script(
                mode,
                config,
                assertion,
                expected_user_id,
                now_ms,
                replies,
                before.len() as int,
            );
            match finished {
                Ok(owner) => if expected_user_id is None || expected_user_id == Some(owner) {
                    gives(result, owner, replies.len() as int)
                } else {
                    refuses(result, "WebAuthn verification failed"@)
                },
                Err(_) => refuses(result, "WebAuthn verification failed"@),
            }
        }),
{
}

/// A login starts at the passkey protocol with the relying party and the time it was given. For a
/// login without a password the user must be verified. For a second step the client may use the
/// credentials it is told, and need not verify the user. The rest comes back as it is.
pub proof fn law_login_starts(
    mode: StoreModeModel,
    config: PasskeyConfigModel,
    allowed: Seq<CredentialDescriptorModel>,
    now_ms: i64,
    started: Result<PublicKeyCredentialRequestOptionsModel, Seq<char>>,
    replies: Seq<ReplyModel>,
    at: int,
)
    requires
        0 <= at <= replies.len(),
        at < replies.len() ==> replies[at] == ReplyModel::LoginStarted(started),
    ensures
        ({
            let plain = start_login_script(mode, config, now_ms, replies, at);
            let login = start_login_assertion_script(mode, config, now_ms, replies, at);
            let twofactor = start_assertion_for_script(mode, config, allowed, now_ms, replies, at);
            let action = ActionModel::StartLogin { mode, config, now_ms };
            let complaint = "WebAuthn assertion start failed"@;
            if at == replies.len() {
                &&& asks(plain, action)
                &&& asks(login, action)
                &&& asks(twofactor, action)
            } else {
                match started {
                    Err(_) => {
                        &&& refuses(plain, complaint)
                        &&& refuses(login, complaint)
                        &&& refuses(twofactor, complaint)
                    },
                    Ok(options) => {
                        &&& gives(plain, options, at + 1)
                        &&& gives(
                            login,
                            PublicKeyCredentialRequestOptionsModel {
                                challenge: options.challenge,
                                timeout: options.timeout,
                                rp_id: options.rp_id,
                                allow_credentials: options.allow_credentials,
                                user_verification: Some("required"@),
                            },
                            at + 1,
                        )
                        &&& gives(
                            twofactor,
                            PublicKeyCredentialRequestOptionsModel {
                                challenge: options.challenge,
                                timeout: options.timeout,
                                rp_id: options.rp_id,
                                allow_credentials: Some(allowed),
                                user_verification: Some("discouraged"@),
                            },
                            at + 1,
                        )
                    },
                }
            }
        }),
{
}

/// A client may use a key over the transports that are known for it. A list that is empty or
/// cannot be read says nothing.
pub open spec fn allows_key(
    allowed: CredentialDescriptorModel,
    key: WebauthnCredentialRowModel,
) -> bool {
    &&& allowed.type_ == "public-key"@
    &&& allowed.id == key.credential_id
    &&& match json_string_list(key.transports) {
        Some(list) => if list.len() > 0 {
            allowed.transports == Some(list)
        } else {
            allowed.transports is None
        },
        None => allowed.transports is None,
    }
}

/// Security keys are listed one by one, in their order, each under its own id and with its own
/// transports.
pub proof fn law_every_key_is_allowed(keys: Seq<WebauthnCredentialRowModel>)
    ensures
        descriptors(keys).len() == keys.len(),
        forall|i: int|
            0 <= i < keys.len() ==> allows_key(#[trigger] descriptors(keys)[i], keys[i]),
{
}

/// One key is listed under its id, with the transports that were read for it if there are any.
pub proof fn law_transports_are_kept(
    credential_id: Seq<char>,
    transports: Option<Seq<Seq<char>>>,
)
    ensures
        descriptor_with(credential_id, transports).type_ == "public-key"@,
        descriptor_with(credential_id, transports).id == credential_id,
        descriptor_with(credential_id, transports).transports is Some <==> transports is Some
            && transports->0.len() > 0,
        descriptor_with(credential_id, transports).transports is Some
            ==> descriptor_with(credential_id, transports).transports == transports,
{
}

/// The options of the second step of a login allow as many credentials as the user has keys: the
/// first is the first key, the second the second, and so on.
pub proof fn law_second_step_allows_every_key(
    mode: StoreModeModel,
    config: PasskeyConfigModel,
    keys: Seq<WebauthnCredentialRowModel>,
    now_ms: i64,
    options: PublicKeyCredentialRequestOptionsModel,
    replies: Seq<ReplyModel>,
    at: int,
)
    requires
        0 <= at <= replies.len(),
        at < replies.len() ==> replies[at] == ReplyModel::LoginStarted(Ok(options)),
    ensures
        ({
            let result = start_2fa_assertion_script(mode, config, keys, now_ms, replies, at);
            if at == replies.len() {
                asks(result, ActionModel::StartLogin { mode, config, now_ms })
            } else {
                &&& result matches Ok((given, end))
                &&& end == at + 1
                &&& given.challenge == options.challenge
                &&& given.timeout == options.timeout
                &&& given.rp_id == options.rp_id
                &&& given.user_verification == Some("discouraged"@)
                &&& given.allow_credentials matches Some(allowed)
                &&& allowed.len() == keys.len()
                &&& forall|i: int|
                    0 <= i < keys.len() ==> allows_key(#[trigger] allowed[i], keys[i])
            }
        }),
{
}

/// A reply that does not answer what was asked is told as such.
pub proof fn law_other_replies_are_unexpected(
    mode: StoreModeModel,
    user_id: Seq<char>,
    username: Seq<char>,
    display_name: Seq<char>,
    config: PasskeyConfigModel,
    registration: RegistrationResponseModel,
    assertion: LoginResponseModel,
    keys: Seq<WebauthnCredentialRowModel>,
    complaint: Seq<char>,
    now_ms: i64,
    replies: Seq<ReplyModel>,
    at: int,
)
    requires
        0 <= at < replies.len(),
    ensures
        !(replies[at] is RegistrationStarted) ==> {
            &&& is_unexpected(
                start_ceremony_registration_script(
                    mode,
                    user_id,
                    username,
                    display_name,
                    config,
                    now_ms,
                    replies,
                    at,
                ),
            )
            &&& is_unexpected(
                start_login_registration_script(
                    mode,
                    user_id,
                    username,
                    display_name,
                    config,
                    now_ms,
                    replies,
                    at,
                ),
            )
            &&& is_unexpected(
                start_2fa_registration_script(
                    mode,
                    user_id,
                    username,
                    display_name,
                    config,
                    now_ms,
                    replies,
                    at,
                ),
            )
        },
        !(replies[at] is RegistrationFinished) ==> is_unexpected(
            finish_registration_script(mode, user_id, config, registration, now_ms, replies, at),
        ),
        !(replies[at] is LoginStarted) ==> {
            &&& is_unexpected(start_login_assertion_script(mode, config, now_ms, replies, at))
            &&& is_unexpected(start_2fa_assertion_script(mode, config, keys, now_ms, replies, at))
        },
        !(replies[at] is LoginFinished) ==> {
            &&& is_unexpected(
                finish_login_script(mode, config, assertion, now_ms, complaint, replies, at),
            )
            &&& is_unexpected(
                finish_login_assertion_script(mode, config, assertion, now_ms, replies, at),
            )
            &&& is_unexpected(
                finish_2fa_assertion_script(
                    mode,
                    config,
                    assertion,
                    user_id,
                    now_ms,
                    replies,
                    at,
                ),
            )
        },
{
}

} // verus!
