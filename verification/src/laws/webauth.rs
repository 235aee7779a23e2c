//! What the endpoints for login passkeys ask for, in which order, and what they answer.
use vstd::prelude::*;
use super::ceremony::{passwordless, same_but_selection};
use super::compat::{assertion_of, is_whole_assertion, is_whole_registration, registration_of};
use super::prf::{key_record, key_update};
use super::twofactor::ends_with;
use super::{asks, fails, fails_as, gives, law_new_member_goes_last, refuses};
use crate::encoding::normalized;
use crate::error::AppErrorModel;
use crate::flow::{ActionModel, ReplyModel, Rows, StopModel};
use crate::handlers::webauth::{
    answer_credentials_script, credentials_answer, delete_webauthn_credential_script,
    options_answer, post_assertion_options_script, post_attestation_options_script,
    post_webauthn_credential_script, put_webauthn_credential_script,
    CreateLoginCredentialRequestModel, UpdatePrfKeysRequestModel,
};
use crate::handlers::{authorize_script, display_name};
use crate::json::JsonModel;
use crate::models::{PasswordOrOtpDataModel, UserModel};
use crate::sql::{DbErrorModel, SqlValueModel, StatementModel};
use crate::types::{
    PasskeyConfigModel, PublicKeyCredentialCreationOptionsModel,
    PublicKeyCredentialRequestOptionsModel,
};
use crate::webauthn::compat::{AssertionPayloadModel, RegistrationPayloadModel};
use crate::webauthn::prf::{list_login_credentials_with_prf_script, LoginCredentialWithPrfModel};
use crate::webauthn::store::{CredentialUsage, StoreModeModel};

verus! {

/// A caller is found, and then checked by the password or one-time code that came with the request;
/// the account that was found is handed on.
pub proof fn law_callers_are_checked(
    user_id: Seq<char>,
    data: PasswordOrOtpDataModel,
    user: UserModel,
    error: AppErrorModel,
)
    ensures
        ({
            let none = Seq::<ReplyModel>::empty();
            let found = none.push(ReplyModel::User(Ok(user)));
            &&& asks(authorize_script(user_id, data, none), ActionModel::FindUser { user_id })
            &&& fails(
                authorize_script(user_id, data, none.push(ReplyModel::User(Err(error)))),
                error,
            )
            &&& asks(authorize_script(user_id, data, found), ActionModel::VerifyUser { data })
            &&& fails(
                authorize_script(user_id, data, found.push(ReplyModel::Verified(Err(error)))),
                error,
            )
            &&& gives(
                authorize_script(user_id, data, found.push(ReplyModel::Verified(Ok(())))),
                user,
                2,
            )
        }),
{
}

/// A user is shown by the name of the account, or else by the email.
pub proof fn law_display_name(user: UserModel, name: Seq<char>, email: Seq<char>)
    ensures
        user.name == Some(name) ==> display_name(user, email) == name,
        user.name is None ==> display_name(user, email) == email,
{
}

/// The answer about login passkeys lists them one by one, in their order.
pub proof fn law_passkeys_document(credentials: Seq<LoginCredentialWithPrfModel>)
    ensures
        ({
            &&& credentials_answer(credentials) matches JsonModel::Object(members)
            &&& members.len() == 3
            &&& members[0] == ("object"@, JsonModel::Text("list"@))
            &&& members[1].0 == "data"@
            &&& members[1].1 matches JsonModel::List(list)
            &&& list.len() == credentials.len()
            &&& forall|i: int|
                0 <= i < credentials.len() ==> #[trigger] list[i] == credentials[i].response()
            &&& members[2] == ("continuationToken"@, JsonModel::Null)
        }),
{
    reveal_strlit("object");
    assert("object"@.len() == 6);
    reveal_strlit("data");
    assert("data"@.len() == 4);
    reveal_strlit("continuationToken");
    assert("continuationToken"@.len() == 17);
    let list = Seq::new(credentials.len(), |i: int| credentials[i].response());
    let object = ("object"@, JsonModel::Text("list"@));
    let data = ("data"@, JsonModel::List(list));
    let token = ("continuationToken"@, JsonModel::Null);
    law_new_member_goes_last(Seq::empty(), object, seq![object]);
    law_new_member_goes_last(seq![object], data, seq![object, data]);
    law_new_member_goes_last(seq![object, data], token, seq![object, data, token]);
}

/// The answer that carries options has an empty token beside them.
pub proof fn law_options_document(options: JsonModel, object: Seq<char>)
    ensures
        options_answer(options, object) == JsonModel::Object(
            seq![
                ("options"@, options),
                ("token"@, JsonModel::Null),
                ("object"@, JsonModel::Text(object)),
            ],
        ),
{
    reveal_strlit("options");
    assert("options"@.len() == 7);
    reveal_strlit("token");
    assert("token"@.len() == 5);
    reveal_strlit("object");
    assert("object"@.len() == 6);
    let told = ("options"@, options);
    let token = ("token"@, JsonModel::Null);
    let kind = ("object"@, JsonModel::Text(object));
    law_new_member_goes_last(Seq::empty(), told, seq![told]);
    law_new_member_goes_last(seq![told], token, seq![told, token]);
    law_new_member_goes_last(seq![told, token], kind, seq![told, token, kind]);
}

/// `GET /api/webauthn` reads the login passkeys of the caller and tells them all.
pub proof fn law_get_webauthn_credentials(
    user_id: Seq<char>,
    credentials: Seq<LoginCredentialWithPrfModel>,
    replies: Seq<ReplyModel>,
    at: int,
)
    requires
        0 <= at <= replies.len(),
        at < replies.len() ==> replies[at] == ReplyModel::LoginCredentials(Ok(credentials)),
    ensures
        ({
            let result = answer_credentials_script(user_id, replies, at);
            &&& ends_with(result, list_login_credentials_with_prf_script(user_id, replies, at))
            &&& at == replies.len() ==> result is Err
            &&& at < replies.len() ==> gives(result, credentials_answer(credentials), at + 1)
        }),
{
}

/// `POST /api/webauthn/attestation-options` checks the caller and starts the registration of a
/// login passkey for the caller's id, under the caller's email, and shown by the name of the
/// account or else by the email. The options come back with demands that fit a passkey.
pub proof fn law_post_attestation_options(
    config: PasskeyConfigModel,
    user_id: Seq<char>,
    email: Seq<char>,
    data: PasswordOrOtpDataModel,
    user: UserModel,
    now_ms: i64,
    started: PublicKeyCredentialCreationOptionsModel,
    reason: Seq<char>,
    error: AppErrorModel,
)
    ensures
        ({
            let after = |replies: Seq<ReplyModel>|
                post_attestation_options_script(config, user_id, email, data, replies);
            let none = Seq::<ReplyModel>::empty();
            let found = none.push(ReplyModel::User(Ok(user)));
            let verified = found.push(ReplyModel::Verified(Ok(())));
            let timed = verified.push(ReplyModel::Time(now_ms));
            &&& asks(after(none), ActionModel::FindUser { user_id })
            &&& fails(after(none.push(ReplyModel::User(Err(error)))), error)
            &&& asks(after(found), ActionModel::VerifyUser { data })
            &&& fails(after(found.push(ReplyModel::Verified(Err(error)))), error)
            &&& asks(after(verified), ActionModel::ReadClock)
            &&& asks(
                after(timed),
                ActionModel::StartRegistration {
                    mode: StoreModeModel::Login,
                    user_id,
                    username: email,
                    display_name: match user.name {
                        Some(name) => name,
                        None => email,
                    },
                    config,
                    now_ms,
                },
            )
            &&& refuses(
                after(timed.push(ReplyModel::RegistrationStarted(Err(reason)))),
                "WebAuthn registration start failed"@,
            )
            &&& after(timed.push(ReplyModel::RegistrationStarted(Ok(started)))) matches Ok(
                (json, end),
            ) && {
                &&& end == 4
                &&& exists|options: PublicKeyCredentialCreationOptionsModel|
                    {
                        &&& json == options_answer(
                            #[trigger] options.json(),
                            "webAuthnCredentialCreateOptions"@,
                        )
                        &&& same_but_selection(options, started)
                        &&& passwordless(options.authenticator_selection)
                    }
            }
        }),
{
    let options = PublicKeyCredentialCreationOptionsModel {
        authenticator_selection: Some(CredentialUsage::Login.selection()),
        ..started
    };
    assert(same_but_selection(options, started) && passwordless(options.authenticator_selection));
    let replies = Seq::<ReplyModel>::empty().push(ReplyModel::User(Ok(user))).push(
        ReplyModel::Verified(Ok(())),
    ).push(ReplyModel::Time(now_ms)).push(ReplyModel::RegistrationStarted(Ok(started)));
    assert(gives(
        post_attestation_options_script(config, user_id, email, data, replies),
        options_answer(options.json(), "webAuthnCredentialCreateOptions"@),
        4,
    ));
}

/// `POST /api/webauthn/assertion-options` checks the caller and starts a login at the relying party
/// it was given. The options come back as they are, but the user must be verified.
pub proof fn law_post_assertion_options(
    config: PasskeyConfigModel,
    user_id: Seq<char>,
    data: PasswordOrOtpDataModel,
    user: UserModel,
    now_ms: i64,
    started: PublicKeyCredentialRequestOptionsModel,
    reason: Seq<char>,
    error: AppErrorModel,
)
    ensures
        ({
            let after = |replies: Seq<ReplyModel>|
                post_assertion_options_script(config, user_id, data, replies);
            let none = Seq::<ReplyModel>::empty();
            let found = none.push(ReplyModel::User(Ok(user)));
            let verified = found.push(ReplyModel::Verified(Ok(())));
            let timed = verified.push(ReplyModel::Time(now_ms));
            &&& asks(after(none), ActionModel::FindUser { user_id })
            &&& fails(after(none.push(ReplyModel::User(Err(error)))), error)
            &&& asks(after(found), ActionModel::VerifyUser { data })
            &&& fails(after(found.push(ReplyModel::Verified(Err(error)))), error)
            &&& asks(after(verified), ActionModel::ReadClock)
            &&& asks(
                after(timed),
                ActionModel::StartLogin { mode: StoreModeModel::Login, config, now_ms },
            )
            &&& refuses(
                after(timed.push(ReplyModel::LoginStarted(Err(reason)))),
                "WebAuthn assertion start failed"@,
            )
            &&& gives(
                after(timed.push(ReplyModel::LoginStarted(Ok(started)))),
                options_answer(
                    (PublicKeyCredentialRequestOptionsModel {
                        challenge: started.challenge,
                        timeout: started.timeout,
                        rp_id: started.rp_id,
                        allow_credentials: started.allow_credentials,
                        user_verification: Some("required"@),
                    }).json(),
                    "webAuthnLoginAssertionOptions"@,
                ),
                4,
            )
        }),
{
}

/// `POST /api/webauthn`, up to the end of the registration: the document of the request is read,
/// and the passkey protocol gets it member by member, normalized, under the name of the request,
/// with the relying party, the caller, the row and the time it was given.
pub proof fn law_passkey_is_registered(
    config: PasskeyConfigModel,
    row_id: Seq<char>,
    user_id: Seq<char>,
    data: CreateLoginCredentialRequestModel,
    now_ms: i64,
    sent: RegistrationPayloadModel,
    reason: Seq<char>,
)
    ensures
        ({
            let after = |replies: Seq<ReplyModel>|
                post_webauthn_credential_script(config, row_id, user_id, data, replies);
            let none = Seq::<ReplyModel>::empty();
            let timed = none.push(ReplyModel::Time(now_ms));
            let read = timed.push(ReplyModel::Registration(Ok(sent)));
            &&& asks(after(none), ActionModel::ReadClock)
            &&& asks(after(timed), ActionModel::ParseRegistration { body: data.device_response })
            &&& refuses(
                after(timed.push(ReplyModel::Registration(Err(reason)))),
                "Invalid deviceResponse"@,
            )
            &&& !is_whole_registration(sent) ==> refuses(after(read), "Invalid deviceResponse"@)
            &&& is_whole_registration(sent) ==> {
                &&& after(read) matches Err(
                    StopModel::Ask(
                        ActionModel::FinishRegistration {
                            mode,
                            user_id: owner,
                            config: party,
                            attestation,
                            now_ms: time,
                        },
                    ),
                )
                &&& mode == (StoreModeModel::LoginRegistration {
                    row_id,
                    original_name: data.name,
                })
                &&& owner == user_id
                &&& party == config
                &&& registration_of(attestation, sent)
                &&& attestation.name == Some(data.name)
                &&& time == now_ms
                &&& refuses(
                    after(read.push(ReplyModel::RegistrationFinished(Err(reason)))),
                    "WebAuthn registration failed"@,
                )
            }
        }),
{
}

/// `POST /api/webauthn`, after the registration: the row is found by the id of the new credential,
/// its record is kept with the keys of the request where the authenticator has the extension and
/// without keys where it does not, and all login passkeys of the caller are told.
pub proof fn law_passkey_is_kept(
    config: PasskeyConfigModel,
    row_id: Seq<char>,
    user_id: Seq<char>,
    data: CreateLoginCredentialRequestModel,
    now_ms: i64,
    sent: RegistrationPayloadModel,
    found: Seq<char>,
    inserted: Option<bool>,
    broken: DbErrorModel,
    rest: Seq<ReplyModel>,
)
    requires
        is_whole_registration(sent),
    ensures
        ({
            let after = |replies: Seq<ReplyModel>|
                post_webauthn_credential_script(config, row_id, user_id, data, replies);
            let registered = Seq::<ReplyModel>::empty().push(ReplyModel::Time(now_ms)).push(
                ReplyModel::Registration(Ok(sent)),
            ).push(ReplyModel::RegistrationFinished(Ok(())));
            let known = registered.push(ReplyModel::LoginRowId(Ok(Some(found))));
            let all = known.push(ReplyModel::Executed(Ok(inserted))) + rest;
            let supported = data.supports_prf == Some(true);
            &&& after(registered) matches Err(
                StopModel::Ask(ActionModel::Fetch { statement, rows }),
            ) && {
                &&& rows == Rows::LoginRowId
                &&& statement.sql
                    == "SELECT id FROM webauthn_credentials WHERE credential_id = ?1 AND usage = 'login'"@
                &&& statement.params.len() == 1
                &&& statement.params[0] matches SqlValueModel::Text(credential_id)
                &&& normalized(sent.id) == Some(credential_id)
            }
            &&& fails_as(
                after(registered.push(ReplyModel::LoginRowId(Err(broken)))),
                broken,
                AppErrorModel::Database,
            )
            &&& fails(
                after(registered.push(ReplyModel::LoginRowId(Ok(None)))),
                AppErrorModel::Internal,
            )
            &&& supported ==> asks(
                after(known),
                ActionModel::Execute {
                    statement: key_record(
                        found,
                        true,
                        data.encrypted_user_key,
                        data.encrypted_public_key,
                        data.encrypted_private_key,
                        now_ms,
                    ),
                },
            )
            &&& !supported ==> asks(
                after(known),
                ActionModel::Execute {
                    statement: key_record(found, false, None, None, None, now_ms),
                },
            )
            &&& fails_as(
                after(known.push(ReplyModel::Executed(Err(broken)))),
                broken,
                AppErrorModel::Database,
            )
            &&& after(all) == answer_credentials_script(user_id, all, 5)
        }),
{
}

/// `PUT /api/webauthn`, up to the end of the login: the document of the request is read, and the
/// passkey protocol gets it member by member, normalized, with the relying party and the time it
/// was given. The passkey must be the caller's own.
pub proof fn law_passkey_is_used(
    config: PasskeyConfigModel,
    user_id: Seq<char>,
    data: UpdatePrfKeysRequestModel,
    now_ms: i64,
    sent: AssertionPayloadModel,
    other: Seq<char>,
    reason: Seq<char>,
)
    ensures
        ({
            let after = |replies: Seq<ReplyModel>|
                put_webauthn_credential_script(config, user_id, data, replies);
            let none = Seq::<ReplyModel>::empty();
            let timed = none.push(ReplyModel::Time(now_ms));
            let read = timed.push(ReplyModel::Assertion(Ok(sent)));
            &&& asks(after(none), ActionModel::ReadClock)
            &&& asks(after(timed), ActionModel::ParseAssertion { body: data.device_response })
            &&& refuses(
                after(timed.push(ReplyModel::Assertion(Err(reason)))),
                "Invalid deviceResponse"@,
            )
            &&& !is_whole_assertion(sent) ==> refuses(after(read), "Invalid deviceResponse"@)
            &&& is_whole_assertion(sent) ==> {
                &&& after(read) matches Err(
                    StopModel::Ask(
                        ActionModel::FinishLogin { mode, config: party, assertion, now_ms: time },
                    ),
                )
                &&& mode == StoreModeModel::Login
                &&& party == config
                &&& assertion_of(assertion, sent)
                &&& time == now_ms
                &&& refuses(
                    after(read.push(ReplyModel::LoginFinished(Err(reason)))),
                    "WebAuthn login failed"@,
                )
                &&& other != user_id ==> refuses(
                    after(read.push(ReplyModel::LoginFinished(Ok(other)))),
                    "WebAuthn credential mismatch"@,
                )
            }
        }),
{
}

/// `PUT /api/webauthn`, after the login: the row is found by the id of the credential that was
/// used, its record gets the keys of the request, or is made with them where there is none, and all
/// login passkeys of the caller are told.
pub proof fn law_passkey_gets_keys(
    config: PasskeyConfigModel,
    user_id: Seq<char>,
    data: UpdatePrfKeysRequestModel,
    now_ms: i64,
    sent: AssertionPayloadModel,
    found: Seq<char>,
    changed: Option<bool>,
    inserted: Option<bool>,
    broken: DbErrorModel,
    rest: Seq<ReplyModel>,
)
    requires
        is_whole_assertion(sent),
    ensures
        ({
            let after = |replies: Seq<ReplyModel>|
                put_webauthn_credential_script(config, user_id, data, replies);
            let used = Seq::<ReplyModel>::empty().push(ReplyModel::Time(now_ms)).push(
                ReplyModel::Assertion(Ok(sent)),
            ).push(ReplyModel::LoginFinished(Ok(user_id)));
            let known = used.push(ReplyModel::LoginRowId(Ok(Some(found))));
            let updated = known.push(ReplyModel::Executed(Ok(changed)));
            let created = updated.push(ReplyModel::Executed(Ok(inserted)));
            &&& after(used) matches Err(
                StopModel::Ask(ActionModel::Fetch { statement, rows }),
            ) && {
                &&& rows == Rows::LoginRowId
                &&& statement.sql
                    == "SELECT id FROM webauthn_credentials WHERE credential_id = ?1 AND usage = 'login'"@
                &&& statement.params.len() == 1
                &&& statement.params[0] matches SqlValueModel::Text(credential_id)
                &&& normalized(sent.id) == Some(credential_id)
            }
            &&& fails_as(
                after(used.push(ReplyModel::LoginRowId(Err(broken)))),
                broken,
                AppErrorModel::Database,
            )
            &&& refuses(
                after(used.push(ReplyModel::LoginRowId(Ok(None)))),
                "Credential not found"@,
            )
            &&& asks(
                after(known),
                ActionModel::Execute {
                    statement: key_update(
                        found,
                        data.encrypted_user_key,
                        data.encrypted_public_key,
                        data.encrypted_private_key,
                        now_ms,
                    ),
                },
            )
            &&& fails_as(
                after(known.push(ReplyModel::Executed(Err(broken)))),
                broken,
                AppErrorModel::Database,
            )
            &&& changed != Some(false) ==> after(updated + rest) == answer_credentials_script(
                user_id,
                updated + rest,
                5,
            )
            &&& changed == Some(false) ==> {
                &&& asks(
                    after(updated),
                    ActionModel::Execute {
                        statement: key_record(
                            found,
                            true,
                            Some(data.encrypted_user_key),
                            Some(data.encrypted_public_key),
                            Some(data.encrypted_private_key),
                            now_ms,
                        ),
                    },
                )
                &&& fails_as(
                    after(updated.push(ReplyModel::Executed(Err(broken)))),
                    broken,
                    AppErrorModel::Database,
                )
                &&& after(created + rest) == answer_credentials_script(user_id, created + rest, 6)
            }
        }),
{
}

/// `POST /api/webauthn/{id}/delete` checks the caller and deletes the login passkey of that row, if
/// it is the caller's. Where none went, there was none.
pub proof fn law_delete_webauthn_credential(
    user_id: Seq<char>,
    id: Seq<char>,
    data: PasswordOrOtpDataModel,
    user: UserModel,
    executed: Option<bool>,
    error: AppErrorModel,
    broken: DbErrorModel,
)
    ensures
        ({
            let after = |replies: Seq<ReplyModel>|
                delete_webauthn_credential_script(user_id, id, data, replies);
            let none = Seq::<ReplyModel>::empty();
            let found = none.push(ReplyModel::User(Ok(user)));
            let verified = found.push(ReplyModel::Verified(Ok(())));
            &&& asks(after(none), ActionModel::FindUser { user_id })
            &&& fails(after(none.push(ReplyModel::User(Err(error)))), error)
            &&& asks(after(found), ActionModel::VerifyUser { data })
            &&& fails(after(found.push(ReplyModel::Verified(Err(error)))), error)
            &&& asks(
                after(verified),
                ActionModel::Execute {
                    statement: StatementModel {
                        sql: "DELETE FROM webauthn_credentials WHERE id = ?1 AND user_id = ?2 AND usage = 'login'"@,
                        params: seq![SqlValueModel::Text(id), SqlValueModel::Text(user_id)],
                    },
                },
            )
            &&& fails_as(
                after(verified.push(ReplyModel::Executed(Err(broken)))),
                broken,
                AppErrorModel::Database,
            )
            &&& executed == Some(true) ==> gives(
                after(verified.push(ReplyModel::Executed(Ok(executed)))),
                JsonModel::Object(Seq::empty()),
                3,
            )
            &&& executed != Some(true) ==> fails(
                after(verified.push(ReplyModel::Executed(Ok(executed)))),
                AppErrorModel::NotFound("Credential not found"@),
            )
        }),
{
}

} // verus!
