//! What the endpoints for the second step of a login ask for, in which order, and what they answer.
use vstd::prelude::*;
use super::ceremony::{same_but_selection, second_factor};
use super::{asks, fails, fails_as, gives, law_new_member_goes_last, refuses, text_or_null};
use crate::error::AppErrorModel;
use crate::flow::{ActionModel, ProgressModel, ReplyModel, Rows, StopModel};
use crate::handlers::twofactor::{
    activate_authenticator_script, activate_webauthn_script, answer_keys_script,
    authenticator_answer, challenge_answer, clear_recovery_if_no_twofactor_script, delete_twofactor,
    delete_twofactor_row, delete_webauthn_script, disable_authenticator_script,
    disable_twofactor_script, disabled_answer, generate_recovery_code_for_user_script,
    get_authenticator_script, get_recover_script, get_twofactor_script,
    get_webauthn_challenge_script, get_webauthn_twofactor_script, has_active, insert_twofactor,
    is_active, key_json, list_user_twofactors_script, only_enabled, provider_ids, providers_answer,
    recover_answer, register_key_script, security_keys_entry, select_twofactor, twofactor_enabled,
    WebauthnDeleteDataModel, WebauthnRegisterDataModel,
};
use crate::json::{law_set_then_get, JsonModel};
use crate::models::{
    DisableAuthenticatorDataModel, DisableTwoFactorDataModel, EnableAuthenticatorDataModel,
    PasswordOrOtpDataModel, TwoFactorModel, TwoFactorType, UserModel,
};
use crate::sql::{DbErrorModel, SqlValueModel, StatementModel};
use crate::types::{PasskeyConfigModel, PublicKeyCredentialCreationOptionsModel};
use crate::webauthn::ceremony::finish_ceremony_registration_script;
use crate::webauthn::compat::receive_registration_script;
use crate::webauthn::store::{
    list_twofactor_credentials_script, CredentialUsage, StoreModeModel, WebauthnCredentialRowModel,
};

verus! {

/// A procedure that ran into an end inside another one ends in the same way.
pub open spec fn ends_with<T, U>(result: ProgressModel<T>, inner: ProgressModel<U>) -> bool {
    inner matches Err(stop) ==> result == Err::<(T, int), StopModel>(stop)
}

/// One-time passwords are factor 0, security keys factor 7.
pub proof fn law_factor_numbers()
    ensures
        TwoFactorType::Authenticator.number() == 0,
        TwoFactorType::Webauthn.number() == 7,
{
}

/// What proves who the caller is, in each of the requests: the password or the one-time code that
/// came with it.
pub proof fn law_credentials(
    enable: EnableAuthenticatorDataModel,
    disable: DisableTwoFactorDataModel,
    by_key: DisableAuthenticatorDataModel,
    register: WebauthnRegisterDataModel,
    delete: WebauthnDeleteDataModel,
)
    ensures
        enable.credentials().master_password_hash == enable.master_password_hash,
        enable.credentials().otp == enable.otp,
        disable.credentials().master_password_hash == disable.master_password_hash,
        disable.credentials().otp == disable.otp,
        by_key.credentials().master_password_hash == by_key.master_password_hash,
        by_key.credentials().otp == by_key.otp,
        register.credentials().master_password_hash == register.master_password_hash,
        register.credentials().otp == register.otp,
        delete.credentials().master_password_hash == delete.master_password_hash,
        delete.credentials().otp == delete.otp,
{
}

/// Whether a factor of this number is turned on.
pub open spec fn is_on(twofactors: Seq<TwoFactorModel>, number: int) -> bool {
    exists|i: int|
        0 <= i < twofactors.len() && (#[trigger] twofactors[i]).enabled && twofactors[i].atype
            == number
}

/// The second step is on where one-time passwords or security keys are, and those of the two that
/// are on are told by their numbers, one-time passwords first. No other factor counts.
pub proof fn law_active_factors(twofactors: Seq<TwoFactorModel>)
    ensures
        twofactor_enabled(twofactors) <==> is_on(twofactors, 0) || is_on(twofactors, 7),
        provider_ids(twofactors) == if is_on(twofactors, 0) && is_on(twofactors, 7) {
            seq![0i32, 7i32]
        } else if is_on(twofactors, 0) {
            seq![0i32]
        } else if is_on(twofactors, 7) {
            seq![7i32]
        } else {
            Seq::<i32>::empty()
        },
{
    assert(has_active(twofactors, TwoFactorType::Authenticator) <==> is_on(twofactors, 0)) by {
        if is_on(twofactors, 0) {
            let i = choose|i: int|
                0 <= i < twofactors.len() && (#[trigger] twofactors[i]).enabled
                    && twofactors[i].atype == 0;
            assert(is_active(twofactors[i], TwoFactorType::Authenticator));
        }
    }
    assert(has_active(twofactors, TwoFactorType::Webauthn) <==> is_on(twofactors, 7)) by {
        if is_on(twofactors, 7) {
            let i = choose|i: int|
                0 <= i < twofactors.len() && (#[trigger] twofactors[i]).enabled
                    && twofactors[i].atype == 7;
            assert(is_active(twofactors[i], TwoFactorType::Webauthn));
        }
    }
}

/// Factors that are turned off are left out, and the others keep their order.
pub proof fn law_only_enabled(twofactors: Seq<TwoFactorModel>, last: TwoFactorModel)
    ensures
        only_enabled(Seq::empty()) == Seq::<TwoFactorModel>::empty(),
        last.enabled ==> only_enabled(twofactors.push(last)) == only_enabled(twofactors).push(last),
        !last.enabled ==> only_enabled(twofactors.push(last)) == only_enabled(twofactors),
{
    reveal(Seq::filter);
    assert(twofactors.push(last).drop_last() =~= twofactors);
}

/// The answer about one-time passwords: whether they are on, and their secret.
pub proof fn law_authenticator_document(enabled: bool, key: Seq<char>)
    ensures
        authenticator_answer(enabled, key) == JsonModel::Object(
            seq![
                ("enabled"@, JsonModel::Bool(enabled)),
                ("key"@, JsonModel::Text(key)),
                ("object"@, JsonModel::Text("twoFactorAuthenticator"@)),
            ],
        ),
{
    reveal_strlit("enabled");
    assert("enabled"@.len() == 7);
    reveal_strlit("key");
    assert("key"@.len() == 3);
    reveal_strlit("object");
    assert("object"@.len() == 6);
    let on = ("enabled"@, JsonModel::Bool(enabled));
    let secret = ("key"@, JsonModel::Text(key));
    let object = ("object"@, JsonModel::Text("twoFactorAuthenticator"@));
    law_new_member_goes_last(Seq::empty(), on, seq![on]);
    law_new_member_goes_last(seq![on], secret, seq![on, secret]);
    law_new_member_goes_last(seq![on, secret], object, seq![on, secret, object]);
}

/// The answer about a factor that was turned off.
pub proof fn law_disabled_document(type_: i32)
    ensures
        disabled_answer(type_) == JsonModel::Object(
            seq![
                ("enabled"@, JsonModel::Bool(false)),
                ("type"@, JsonModel::Number(type_ as int)),
                ("object"@, JsonModel::Text("twoFactorProvider"@)),
            ],
        ),
{
    reveal_strlit("enabled");
    assert("enabled"@.len() == 7);
    reveal_strlit("type");
    assert("type"@.len() == 4);
    reveal_strlit("object");
    assert("object"@.len() == 6);
    let on = ("enabled"@, JsonModel::Bool(false));
    let number = ("type"@, JsonModel::Number(type_ as int));
    let object = ("object"@, JsonModel::Text("twoFactorProvider"@));
    law_new_member_goes_last(Seq::empty(), on, seq![on]);
    law_new_member_goes_last(seq![on], number, seq![on, number]);
    law_new_member_goes_last(seq![on, number], object, seq![on, number, object]);
}

/// The answer about all factors.
pub proof fn law_providers_document(providers: Seq<JsonModel>)
    ensures
        providers_answer(providers) == JsonModel::Object(
            seq![
                ("data"@, JsonModel::List(providers)),
                ("object"@, JsonModel::Text("list"@)),
                ("continuationToken"@, JsonModel::Null),
            ],
        ),
{
    reveal_strlit("data");
    assert("data"@.len() == 4);
    reveal_strlit("object");
    assert("object"@.len() == 6);
    reveal_strlit("continuationToken");
    assert("continuationToken"@.len() == 17);
    let data = ("data"@, JsonModel::List(providers));
    let object = ("object"@, JsonModel::Text("list"@));
    let token = ("continuationToken"@, JsonModel::Null);
    law_new_member_goes_last(Seq::empty(), data, seq![data]);
    law_new_member_goes_last(seq![data], object, seq![data, object]);
    law_new_member_goes_last(seq![data, object], token, seq![data, object, token]);
}

/// The answer about the recovery code.
pub proof fn law_recovery_document(code: Option<Seq<char>>)
    ensures
        recover_answer(code) == JsonModel::Object(
            seq![
                ("code"@, text_or_null(code)),
                ("object"@, JsonModel::Text("twoFactorRecover"@)),
            ],
        ),
{
    reveal_strlit("code");
    assert("code"@.len() == 4);
    reveal_strlit("object");
    assert("object"@.len() == 6);
    let told = ("code"@, text_or_null(code));
    let object = ("object"@, JsonModel::Text("twoFactorRecover"@));
    law_new_member_goes_last(Seq::empty(), told, seq![told]);
    law_new_member_goes_last(seq![told], object, seq![told, object]);
}

/// The options of a security key are told as those of any credential, with a word that all is well.
pub proof fn law_challenge_document(options: PublicKeyCredentialCreationOptionsModel)
    ensures
        challenge_answer(options).get("status"@) == Some(JsonModel::Text("ok"@)),
        challenge_answer(options).get("errorMessage"@) == Some(JsonModel::Text(""@)),
        forall|name: Seq<char>|
            name != "status"@ && name != "errorMessage"@ ==> #[trigger] challenge_answer(
                options,
            ).get(name) == options.json().get(name),
{
    broadcast use law_set_then_get;

    reveal_strlit("status");
    assert("status"@.len() == 6);
    reveal_strlit("errorMessage");
    assert("errorMessage"@.len() == 12);
}

/// How a security key is told: its number, its name, and that it was made for this server.
pub open spec fn tells_key(json: JsonModel, key: WebauthnCredentialRowModel) -> bool {
    &&& key.provider_id matches Some(number)
    &&& json == JsonModel::Object(
        seq![
            ("id"@, JsonModel::Number(number as int)),
            ("name"@, JsonModel::Text(key.name)),
            ("migrated"@, JsonModel::Bool(false)),
        ],
    )
}

/// The answer about the security keys lists them one by one, in their order. They are on where the
/// endpoint knows so, and where there is one.
pub open spec fn tells_keys(
    json: JsonModel,
    on: bool,
    keys: Seq<WebauthnCredentialRowModel>,
    object: Seq<char>,
) -> bool {
    &&& json matches JsonModel::Object(members)
    &&& members.len() == 3
    &&& members[0] == ("enabled"@, JsonModel::Bool(on || keys.len() > 0))
    &&& members[1].0 == "keys"@
    &&& members[1].1 matches JsonModel::List(list)
    &&& list.len() == keys.len()
    &&& forall|i: int| 0 <= i < keys.len() ==> tells_key(#[trigger] list[i], keys[i])
    &&& members[2] == ("object"@, JsonModel::Text(object))
}

/// The security keys of the user are read and told. One without a number is an inner error.
pub proof fn law_keys_are_told(
    user_id: Seq<char>,
    on: bool,
    object: Seq<char>,
    keys: Seq<WebauthnCredentialRowModel>,
    replies: Seq<ReplyModel>,
    at: int,
)
    requires
        0 <= at <= replies.len(),
        at < replies.len() ==> replies[at] == ReplyModel::SecurityKeys(Ok(keys)),
    ensures
        ({
            let result = answer_keys_script(user_id, on, object, replies, at);
            let numbered = forall|i: int|
                0 <= i < keys.len() ==> (#[trigger] keys[i]).provider_id is Some;
            &&& ends_with(result, list_twofactor_credentials_script(user_id, replies, at))
            &&& at < replies.len() && !numbered ==> fails(result, AppErrorModel::Internal)
            &&& at < replies.len() && numbered ==> {
                &&& result matches Ok((json, end))
                &&& end == at + 1
                &&& tells_keys(json, on, keys, object)
            }
        }),
{
    reveal_strlit("id");
    assert("id"@.len() == 2);
    reveal_strlit("name");
    assert("name"@.len() == 4);
    reveal_strlit("migrated");
    assert("migrated"@.len() == 8);
    reveal_strlit("enabled");
    assert("enabled"@.len() == 7);
    reveal_strlit("keys");
    assert("keys"@.len() == 4);
    reveal_strlit("object");
    assert("object"@.len() == 6);
    assert("name"@[0] != "keys"@[0]);
    if at < replies.len() && forall|i: int|
        0 <= i < keys.len() ==> (#[trigger] keys[i]).provider_id is Some {
        let list = Seq::new(
            keys.len(),
            |i: int| key_json(keys[i].provider_id->0, keys[i].name),
        );
        assert forall|i: int| 0 <= i < keys.len() implies tells_key(
            #[trigger] list[i],
            keys[i],
        ) by {
            let id = ("id"@, JsonModel::Number(keys[i].provider_id->0 as int));
            let name = ("name"@, JsonModel::Text(keys[i].name));
            let migrated = ("migrated"@, JsonModel::Bool(false));
            law_new_member_goes_last(Seq::empty(), id, seq![id]);
            law_new_member_goes_last(seq![id], name, seq![id, name]);
            law_new_member_goes_last(seq![id, name], migrated, seq![id, name, migrated]);
        }
        let enabled = ("enabled"@, JsonModel::Bool(on || keys.len() > 0));
        let listed = ("keys"@, JsonModel::List(list));
        let told = ("object"@, JsonModel::Text(object));
        law_new_member_goes_last(Seq::empty(), enabled, seq![enabled]);
        law_new_member_goes_last(seq![enabled], listed, seq![enabled, listed]);
        law_new_member_goes_last(seq![enabled, listed], told, seq![enabled, listed, told]);
    }
}

/// Factors are read and deleted by their user and their number, or deleted by their own id; and
/// written column by column.
pub proof fn law_factor_statements(
    user_id: Seq<char>,
    atype: i32,
    uuid: Seq<char>,
    twofactor: TwoFactorModel,
)
    ensures
        select_twofactor(user_id, atype).sql
            == "SELECT * FROM twofactor WHERE user_uuid = ?1 AND atype = ?2"@,
        select_twofactor(user_id, atype).params == seq![
            SqlValueModel::Text(user_id),
            SqlValueModel::Int(atype as int),
        ],
        delete_twofactor(user_id, atype).sql
            == "DELETE FROM twofactor WHERE user_uuid = ?1 AND atype = ?2"@,
        delete_twofactor(user_id, atype).params == seq![
            SqlValueModel::Text(user_id),
            SqlValueModel::Int(atype as int),
        ],
        delete_twofactor_row(uuid).sql == "DELETE FROM twofactor WHERE uuid = ?1"@,
        delete_twofactor_row(uuid).params == seq![SqlValueModel::Text(uuid)],
        insert_twofactor(twofactor).params.len() == 6,
        insert_twofactor(twofactor).params[0] == SqlValueModel::Text(twofactor.uuid),
        insert_twofactor(twofactor).params[1] == SqlValueModel::Text(twofactor.user_uuid),
        insert_twofactor(twofactor).params[2] == SqlValueModel::Int(twofactor.atype as int),
        insert_twofactor(twofactor).params[3] == SqlValueModel::Int(
            if twofactor.enabled {
                1
            } else {
                0
            },
        ),
        insert_twofactor(twofactor).params[4] == SqlValueModel::Text(twofactor.data),
        insert_twofactor(twofactor).params[5] == SqlValueModel::Int(twofactor.last_used as int),
{
}

/// The factors of a user are read from the database. Where the user has security keys, they stand
/// behind the others as one more factor, which is turned on.
pub proof fn law_factors_are_listed(
    user_id: Seq<char>,
    rows: Seq<TwoFactorModel>,
    keys: usize,
    error: DbErrorModel,
    before: Seq<ReplyModel>,
)
    ensures
        ({
            let at = before.len() as int;
            let found = before.push(ReplyModel::TwoFactors(Ok((rows, keys))));
            let broken = before.push(ReplyModel::TwoFactors(Err(error)));
            &&& asks(
                list_user_twofactors_script(user_id, before, at),
                ActionModel::FetchTwoFactors {
                    twofactors: StatementModel {
                        sql: "SELECT * FROM twofactor WHERE user_uuid = ?1 AND atype < 1000"@,
                        params: seq![SqlValueModel::Text(user_id)],
                    },
                    security_keys: StatementModel {
                        sql: "SELECT 1 AS present FROM webauthn_credentials WHERE user_id = ?1 AND usage = 'twofactor' LIMIT 1"@,
                        params: seq![SqlValueModel::Text(user_id)],
                    },
                },
            )
            &&& fails_as(
                list_user_twofactors_script(user_id, broken, at),
                error,
                AppErrorModel::Database,
            )
            &&& keys == 0 ==> gives(list_user_twofactors_script(user_id, found, at), rows, at + 1)
            &&& keys > 0 ==> gives(
                list_user_twofactors_script(user_id, found, at),
                rows.push(
                    TwoFactorModel {
                        uuid: "webauthn-2fa-"@ + user_id,
                        user_uuid: user_id,
                        atype: 7,
                        enabled: true,
                        data: ""@,
                        last_used: 0,
                    },
                ),
                at + 1,
            )
        }),
{
}

/// A user without a recovery code gets a new one, which is stored for that user; one who has a code
/// keeps it; and for one who is not there the request is unauthorized.
pub proof fn law_recovery_code_is_made(
    user_id: Seq<char>,
    kept: Seq<char>,
    code: Seq<char>,
    changed: Option<bool>,
    error: AppErrorModel,
    broken: DbErrorModel,
    before: Seq<ReplyModel>,
)
    ensures
        ({
            let at = before.len() as int;
            let after = |replies: Seq<ReplyModel>|
                generate_recovery_code_for_user_script(user_id, replies, at);
            let none = before.push(ReplyModel::RecoveryCode(Ok(Some(None))));
            let made = none.push(ReplyModel::Generated(Ok(code)));
            &&& asks(
                after(before),
                ActionModel::Fetch {
                    statement: StatementModel {
                        sql: "SELECT totp_recover FROM users WHERE id = ?1"@,
                        params: seq![SqlValueModel::Text(user_id)],
                    },
                    rows: Rows::RecoveryCode,
                },
            )
            &&& fails_as(
                after(before.push(ReplyModel::RecoveryCode(Err(broken)))),
                broken,
                AppErrorModel::Database,
            )
            &&& fails(
                after(before.push(ReplyModel::RecoveryCode(Ok(None)))),
                AppErrorModel::Unauthorized("User not found"@),
            )
            &&& gives(
                after(before.push(ReplyModel::RecoveryCode(Ok(Some(Some(kept)))))),
                (),
                at + 1,
            )
            &&& asks(after(none), ActionModel::GenerateRecoveryCode)
            &&& fails(after(none.push(ReplyModel::Generated(Err(error)))), error)
            &&& asks(
                after(made),
                ActionModel::Execute {
                    statement: StatementModel {
                        sql: "UPDATE users SET totp_recover = ?1 WHERE id = ?2"@,
                        params: seq![SqlValueModel::Text(code), SqlValueModel::Text(user_id)],
                    },
                },
            )
            &&& fails(
                after(made.push(ReplyModel::Executed(Err(broken)))),
                AppErrorModel::Database,
            )
            &&& gives(after(made.push(ReplyModel::Executed(Ok(changed)))), (), at + 3)
        }),
{
}

/// The recovery code goes where no factor that counts is left, and stays where one is.
pub proof fn law_recovery_code_is_cleared(
    user_id: Seq<char>,
    rows: Seq<TwoFactorModel>,
    keys: usize,
    changed: Option<bool>,
    broken: DbErrorModel,
    before: Seq<ReplyModel>,
)
    ensures
        ({
            let at = before.len() as int;
            let after = |replies: Seq<ReplyModel>|
                clear_recovery_if_no_twofactor_script(user_id, replies, at);
            let found = before.push(ReplyModel::TwoFactors(Ok((rows, keys))));
            let left = is_on(rows, 0) || is_on(rows, 7) || keys > 0;
            &&& ends_with(after(before), list_user_twofactors_script(user_id, before, at))
            &&& after(before) is Err
            &&& fails_as(
                after(before.push(ReplyModel::TwoFactors(Err(broken)))),
                broken,
                AppErrorModel::Database,
            )
            &&& left ==> gives(after(found), (), at + 1)
            &&& !left ==> {
                &&& asks(
                    after(found),
                    ActionModel::Execute {
                        statement: StatementModel {
                            sql: "UPDATE users SET totp_recover = NULL WHERE id = ?1"@,
                            params: seq![SqlValueModel::Text(user_id)],
                        },
                    },
                )
                &&& fails(
                    after(found.push(ReplyModel::Executed(Err(broken)))),
                    AppErrorModel::Database,
                )
                &&& gives(after(found.push(ReplyModel::Executed(Ok(changed)))), (), at + 2)
            }
        }),
{
    law_active_factors(rows);
    let entry = security_keys_entry(user_id);
    let all = rows.push(entry);
    law_active_factors(all);
    assert(all[rows.len() as int] == entry);
    assert(is_on(all, 7));
}

/// `GET /api/two-factor` reads the factors of the user, has those that are on described, and
/// answers with the descriptions.
pub proof fn law_get_twofactor(
    user_id: Seq<char>,
    rows: Seq<TwoFactorModel>,
    keys: usize,
    providers: Seq<JsonModel>,
)
    ensures
        ({
            let none = Seq::<ReplyModel>::empty();
            let found = none.push(ReplyModel::TwoFactors(Ok((rows, keys))));
            let listed = list_user_twofactors_script(user_id, found, 0);
            &&& ends_with(
                get_twofactor_script(user_id, none),
                list_user_twofactors_script(user_id, none, 0),
            )
            &&& get_twofactor_script(user_id, none) is Err
            &&& listed is Ok
            &&& asks(
                get_twofactor_script(user_id, found),
                ActionModel::DescribeProviders { providers: only_enabled(listed->Ok_0.0) },
            )
            &&& gives(
                get_twofactor_script(user_id, found.push(ReplyModel::Providers(providers))),
                providers_answer(providers),
                2,
            )
        }),
{
}

/// `POST /api/two-factor/get-authenticator` checks the caller and tells the secret that is stored,
/// or a new one where one-time passwords are off.
pub proof fn law_get_authenticator(
    user_id: Seq<char>,
    data: PasswordOrOtpDataModel,
    user: UserModel,
    stored: TwoFactorModel,
    secret: Seq<char>,
    error: AppErrorModel,
    broken: DbErrorModel,
)
    ensures
        ({
            let after = |replies: Seq<ReplyModel>| get_authenticator_script(user_id, data, replies);
            let none = Seq::<ReplyModel>::empty();
            let found = none.push(ReplyModel::User(Ok(user)));
            let verified = found.push(ReplyModel::Verified(Ok(())));
            let off = verified.push(ReplyModel::TwoFactor(Ok(None)));
            &&& asks(after(none), ActionModel::FindUser { user_id })
            &&& fails(after(none.push(ReplyModel::User(Err(error)))), error)
            &&& asks(after(found), ActionModel::VerifyUser { data })
            &&& fails(after(found.push(ReplyModel::Verified(Err(error)))), error)
            &&& asks(
                after(verified),
                ActionModel::Fetch {
                    statement: StatementModel {
                        sql: "SELECT * FROM twofactor WHERE user_uuid = ?1 AND atype = ?2"@,
                        params: seq![SqlValueModel::Text(user_id), SqlValueModel::Int(0)],
                    },
                    rows: Rows::TwoFactor,
                },
            )
            &&& fails_as(
                after(verified.push(ReplyModel::TwoFactor(Err(broken)))),
                broken,
                AppErrorModel::Internal,
            )
            &&& gives(
                after(verified.push(ReplyModel::TwoFactor(Ok(Some(stored))))),
                authenticator_answer(true, stored.data),
                3,
            )
            &&& asks(after(off), ActionModel::GenerateTotpSecret)
            &&& fails(after(off.push(ReplyModel::Generated(Err(error)))), error)
            &&& gives(
                after(off.push(ReplyModel::Generated(Ok(secret)))),
                authenticator_answer(false, secret),
                4,
            )
        }),
{
}

/// `POST /api/two-factor/authenticator`, up to the check of the token: the caller is checked, the
/// secret must be twenty bytes, and the token must be newer than the last that was used.
pub proof fn law_activation_checks(
    user_id: Seq<char>,
    data: EnableAuthenticatorDataModel,
    key: Seq<char>,
    user: UserModel,
    secret: Seq<u8>,
    stored: Option<TwoFactorModel>,
    error: AppErrorModel,
    broken: DbErrorModel,
)
    ensures
        ({
            let after = |replies: Seq<ReplyModel>|
                activate_authenticator_script(user_id, data, key, replies);
            let none = Seq::<ReplyModel>::empty();
            let found = none.push(ReplyModel::User(Ok(user)));
            let verified = found.push(ReplyModel::Verified(Ok(())));
            let decoded = verified.push(ReplyModel::Decoded(Ok(secret)));
            let known = decoded.push(ReplyModel::TwoFactor(Ok(stored)));
            &&& asks(after(none), ActionModel::FindUser { user_id })
            &&& fails(after(none.push(ReplyModel::User(Err(error)))), error)
            &&& asks(
                after(found),
                ActionModel::VerifyUser {
                    data: PasswordOrOtpDataModel {
                        master_password_hash: data.master_password_hash,
                        otp: data.otp,
                    },
                },
            )
            &&& fails(after(found.push(ReplyModel::Verified(Err(error)))), error)
            &&& asks(after(verified), ActionModel::DecodeBase32 { text: key })
            &&& fails(after(verified.push(ReplyModel::Decoded(Err(error)))), error)
            &&& secret.len() != 20 ==> refuses(after(decoded), "Invalid key length"@)
            &&& secret.len() == 20 ==> {
                &&& asks(
                    after(decoded),
                    ActionModel::Fetch {
                        statement: StatementModel {
                            sql: "SELECT * FROM twofactor WHERE user_uuid = ?1 AND atype = ?2"@,
                            params: seq![SqlValueModel::Text(user_id), SqlValueModel::Int(0)],
                        },
                        rows: Rows::TwoFactor,
                    },
                )
                &&& fails_as(
                    after(decoded.push(ReplyModel::TwoFactor(Err(broken)))),
                    broken,
                    AppErrorModel::Internal,
                )
                &&& asks(
                    after(known),
                    ActionModel::ValidateTotp {
                        token: data.token,
                        key,
                        last_used: match stored {
                            Some(stored) => stored.last_used,
                            None => 0,
                        },
                    },
                )
                &&& fails(after(known.push(ReplyModel::TimeStep(Err(error)))), error)
            }
        }),
{
}

/// `POST /api/two-factor/authenticator`, after the check of the token: what was stored before goes,
/// the new secret is stored as used at the step of the token, a recovery code is made where there
/// is none, and the answer tells the secret.
pub proof fn law_activation_stores(
    user_id: Seq<char>,
    data: EnableAuthenticatorDataModel,
    key: Seq<char>,
    user: UserModel,
    secret: Seq<u8>,
    stored: Option<TwoFactorModel>,
    step: i64,
    deleted: Option<bool>,
    made: TwoFactorModel,
    inserted: Option<bool>,
    broken: DbErrorModel,
    rest: Seq<ReplyModel>,
)
    requires
        secret.len() == 20,
    ensures
        ({
            let after = |replies: Seq<ReplyModel>|
                activate_authenticator_script(user_id, data, key, replies);
            let checked = Seq::<ReplyModel>::empty().push(ReplyModel::User(Ok(user))).push(
                ReplyModel::Verified(Ok(())),
            ).push(ReplyModel::Decoded(Ok(secret))).push(ReplyModel::TwoFactor(Ok(stored))).push(
                ReplyModel::TimeStep(Ok(step)),
            );
            let cleared = checked.push(ReplyModel::Executed(Ok(deleted)));
            let prepared = cleared.push(ReplyModel::NewTwoFactor(made));
            let kept = prepared.push(ReplyModel::Executed(Ok(inserted)));
            let all = kept + rest;
            let recovery = generate_recovery_code_for_user_script(user_id, all, 8);
            &&& asks(
                after(checked),
                ActionModel::Execute {
                    statement: StatementModel {
                        sql: "DELETE FROM twofactor WHERE user_uuid = ?1 AND atype = ?2"@,
                        params: seq![SqlValueModel::Text(user_id), SqlValueModel::Int(0)],
                    },
                },
            )
            &&& fails(
                after(checked.push(ReplyModel::Executed(Err(broken)))),
                AppErrorModel::Database,
            )
            &&& asks(
                after(cleared),
                ActionModel::NewTwoFactor {
                    user_id,
                    type_: TwoFactorType::Authenticator,
                    secret: key,
                },
            )
            &&& asks(
                after(prepared),
                ActionModel::Execute {
                    statement: StatementModel {
                        sql: "INSERT INTO twofactor (uuid, user_uuid, atype, enabled, data, last_used) VALUES (?1, ?2, ?3, ?4, ?5, ?6)"@,
                        params: seq![
                            SqlValueModel::Text(made.uuid),
                            SqlValueModel::Text(made.user_uuid),
                            SqlValueModel::Int(made.atype as int),
                            SqlValueModel::Int(
                                if made.enabled {
                                    1
                                } else {
                                    0
                                },
                            ),
                            SqlValueModel::Text(made.data),
                            SqlValueModel::Int(step as int),
                        ],
                    },
                },
            )
            &&& fails(
                after(prepared.push(ReplyModel::Executed(Err(broken)))),
                AppErrorModel::Database,
            )
            &&& ends_with(after(all), recovery)
            &&& recovery matches Ok((done, end)) ==> gives(
                after(all),
                authenticator_answer(true, key),
                end,
            )
        }),
{
}

/// `POST /api/two-factor/disable` checks the caller, deletes what is stored of that factor and no
/// other, clears the recovery code where no factor is left, and answers with the factor.
pub proof fn law_disable_twofactor(
    user_id: Seq<char>,
    data: DisableTwoFactorDataModel,
    user: UserModel,
    deleted: Option<bool>,
    error: AppErrorModel,
    broken: DbErrorModel,
    rest: Seq<ReplyModel>,
)
    ensures
        ({
            let after = |replies: Seq<ReplyModel>| disable_twofactor_script(user_id, data, replies);
            let none = Seq::<ReplyModel>::empty();
            let found = none.push(ReplyModel::User(Ok(user)));
            let verified = found.push(ReplyModel::Verified(Ok(())));
            let all = verified.push(ReplyModel::Executed(Ok(deleted))) + rest;
            let clearing = clear_recovery_if_no_twofactor_script(user_id, all, 3);
            &&& asks(after(none), ActionModel::FindUser { user_id })
            &&& fails(after(none.push(ReplyModel::User(Err(error)))), error)
            &&& asks(
                after(found),
                ActionModel::VerifyUser {
                    data: PasswordOrOtpDataModel {
                        master_password_hash: data.master_password_hash,
                        otp: data.otp,
                    },
                },
            )
            &&& fails(after(found.push(ReplyModel::Verified(Err(error)))), error)
            &&& data.type_ == 7 ==> {
                &&& asks(
                    after(verified),
                    ActionModel::Execute {
                        statement: StatementModel {
                            sql: "DELETE FROM webauthn_credentials WHERE user_id = ?1 AND usage = 'twofactor'"@,
                            params: seq![SqlValueModel::Text(user_id)],
                        },
                    },
                )
                &&& fails_as(
                    after(verified.push(ReplyModel::Executed(Err(broken)))),
                    broken,
                    AppErrorModel::Database,
                )
            }
            &&& data.type_ != 7 ==> {
                &&& asks(
                    after(verified),
                    ActionModel::Execute {
                        statement: StatementModel {
                            sql: "DELETE FROM twofactor WHERE user_uuid = ?1 AND atype = ?2"@,
                            params: seq![
                                SqlValueModel::Text(user_id),
                                SqlValueModel::Int(data.type_ as int),
                            ],
                        },
                    },
                )
                &&& fails(
                    after(verified.push(ReplyModel::Executed(Err(broken)))),
                    AppErrorModel::Database,
                )
            }
            &&& ends_with(after(all), clearing)
            &&& clearing matches Ok((done, end)) ==> gives(
                after(all),
                disabled_answer(data.type_),
                end,
            )
        }),
{
}

/// `DELETE /api/two-factor/authenticator` takes one-time passwords only. It checks the caller,
/// compares the secret that is stored with the one that was given, deletes that very record where
/// they are the same, clears the recovery code where no factor is left, and answers with the
/// factor.
pub proof fn law_disable_authenticator(
    user_id: Seq<char>,
    data: DisableAuthenticatorDataModel,
    key: Seq<char>,
    user: UserModel,
    stored: TwoFactorModel,
    deleted: Option<bool>,
    error: AppErrorModel,
    broken: DbErrorModel,
    rest: Seq<ReplyModel>,
)
    ensures
        ({
            let after = |replies: Seq<ReplyModel>|
                disable_authenticator_script(user_id, data, key, replies);
            let none = Seq::<ReplyModel>::empty();
            let found = none.push(ReplyModel::User(Ok(user)));
            let verified = found.push(ReplyModel::Verified(Ok(())));
            let known = verified.push(ReplyModel::TwoFactor(Ok(Some(stored))));
            let same = known.push(ReplyModel::Same(true));
            let all = same.push(ReplyModel::Executed(Ok(deleted))) + rest;
            let clearing = clear_recovery_if_no_twofactor_script(user_id, all, 5);
            &&& data.type_ != 0 ==> forall|replies: Seq<ReplyModel>|
                refuses(#[trigger] after(replies), "Invalid two factor type"@)
            &&& data.type_ == 0 ==> {
                &&& asks(after(none), ActionModel::FindUser { user_id })
                &&& fails(after(none.push(ReplyModel::User(Err(error)))), error)
                &&& asks(
                    after(found),
                    ActionModel::VerifyUser {
                        data: PasswordOrOtpDataModel {
                            master_password_hash: data.master_password_hash,
                            otp: data.otp,
                        },
                    },
                )
                &&& fails(after(found.push(ReplyModel::Verified(Err(error)))), error)
                &&& asks(
                    after(verified),
                    ActionModel::Fetch {
                        statement: StatementModel {
                            sql: "SELECT * FROM twofactor WHERE user_uuid = ?1 AND atype = ?2"@,
                            params: seq![SqlValueModel::Text(user_id), SqlValueModel::Int(0)],
                        },
                        rows: Rows::TwoFactor,
                    },
                )
                &&& fails_as(
                    after(verified.push(ReplyModel::TwoFactor(Err(broken)))),
                    broken,
                    AppErrorModel::Internal,
                )
                &&& refuses(
                    after(verified.push(ReplyModel::TwoFactor(Ok(None)))),
                    "TOTP not configured"@,
                )
                &&& asks(
                    after(known),
                    ActionModel::CompareSecrets { stored: stored.data, given: key },
                )
                &&& refuses(
                    after(known.push(ReplyModel::Same(false))),
                    "TOTP key does not match recorded value"@,
                )
                &&& asks(
                    after(same),
                    ActionModel::Execute {
                        statement: StatementModel {
                            sql: "DELETE FROM twofactor WHERE uuid = ?1"@,
                            params: seq![SqlValueModel::Text(stored.uuid)],
                        },
                    },
                )
                &&& fails(
                    after(same.push(ReplyModel::Executed(Err(broken)))),
                    AppErrorModel::Database,
                )
                &&& ends_with(after(all), clearing)
                &&& clearing matches Ok((done, end)) ==> gives(after(all), disabled_answer(0), end)
            }
        }),
{
}

/// `POST /api/two-factor/get-recover` checks the caller and tells the recovery code of the account
/// that was found.
pub proof fn law_get_recover(
    user_id: Seq<char>,
    data: PasswordOrOtpDataModel,
    user: UserModel,
    error: AppErrorModel,
)
    ensures
        ({
            let after = |replies: Seq<ReplyModel>| get_recover_script(user_id, data, replies);
            let none = Seq::<ReplyModel>::empty();
            let found = none.push(ReplyModel::User(Ok(user)));
            &&& asks(after(none), ActionModel::FindUser { user_id })
            &&& fails(after(none.push(ReplyModel::User(Err(error)))), error)
            &&& asks(after(found), ActionModel::VerifyUser { data })
            &&& fails(after(found.push(ReplyModel::Verified(Err(error)))), error)
            &&& gives(
                after(found.push(ReplyModel::Verified(Ok(())))),
                recover_answer(user.totp_recover),
                2,
            )
        }),
{
}

/// `POST /api/two-factor/get-webauthn` checks the caller and tells the security keys, which are on
/// where there is one.
pub proof fn law_get_webauthn_twofactor(
    user_id: Seq<char>,
    data: PasswordOrOtpDataModel,
    user: UserModel,
    error: AppErrorModel,
    rest: Seq<ReplyModel>,
)
    ensures
        ({
            let after = |replies: Seq<ReplyModel>|
                get_webauthn_twofactor_script(user_id, data, replies);
            let none = Seq::<ReplyModel>::empty();
            let found = none.push(ReplyModel::User(Ok(user)));
            let all = found.push(ReplyModel::Verified(Ok(()))) + rest;
            &&& asks(after(none), ActionModel::FindUser { user_id })
            &&& fails(after(none.push(ReplyModel::User(Err(error)))), error)
            &&& asks(after(found), ActionModel::VerifyUser { data })
            &&& fails(after(found.push(ReplyModel::Verified(Err(error)))), error)
            &&& after(all) == answer_keys_script(user_id, false, "twoFactorWebAuthn"@, all, 2)
        }),
{
}

/// `POST /api/two-factor/get-webauthn-challenge` checks the caller and starts the registration of a
/// security key for the caller's id, under the caller's email, and shown by the name of the account
/// or else by the email. The options come back with demands that fit a second factor.
pub proof fn law_get_webauthn_challenge(
    config: PasskeyConfigModel,
    user_id: Seq<char>,
    email: Seq<char>,
    data: PasswordOrOtpDataModel,
    user: UserModel,
    now_ms: i64,
    started: PublicKeyCredentialCreationOptionsModel,
    reason: Seq<char>,
    error: AppErrorModel,
)
    ensures
        ({
            let after = |replies: Seq<ReplyModel>|
                get_webauthn_challenge_script(config, user_id, email, data, replies);
            let none = Seq::<ReplyModel>::empty();
            let found = none.push(ReplyModel::User(Ok(user)));
            let verified = found.push(ReplyModel::Verified(Ok(())));
            let timed = verified.push(ReplyModel::Time(now_ms));
            &&& asks(after(none), ActionModel::FindUser { user_id })
            &&& fails(after(none.push(ReplyModel::User(Err(error)))), error)
            &&& asks(after(found), ActionModel::VerifyUser { data })
            &&& fails(after(found.push(ReplyModel::Verified(Err(error)))), error)
            &&& asks(after(verified), ActionModel::ReadClock)
            &&& asks(
                after(timed),
                ActionModel::StartRegistration {
                    mode: StoreModeModel::TwoFactor,
                    user_id,
                    username: email,
                    display_name: match user.name {
                        Some(name) => name,
                        None => email,
                    },
                    config,
                    now_ms,
                },
            )
            &&& refuses(
                after(timed.push(ReplyModel::RegistrationStarted(Err(reason)))),
                "WebAuthn registration start failed"@,
            )
            &&& after(timed.push(ReplyModel::RegistrationStarted(Ok(started)))) matches Ok(
                (json, end),
            ) && {
                &&& end == 4
                &&& exists|options: PublicKeyCredentialCreationOptionsModel|
                    {
                        &&& json == #[trigger] challenge_answer(options)
                        &&& same_but_selection(options, started)
                        &&& second_factor(options.authenticator_selection)
                    }
            }
        }),
{
    let options = PublicKeyCredentialCreationOptionsModel {
        authenticator_selection: Some(CredentialUsage::TwoFactor.selection()),
        ..started
    };
    assert(same_but_selection(options, started) && second_factor(options.authenticator_selection));
    let replies = Seq::<ReplyModel>::empty().push(ReplyModel::User(Ok(user))).push(
        ReplyModel::Verified(Ok(())),
    ).push(ReplyModel::Time(now_ms)).push(ReplyModel::RegistrationStarted(Ok(started)));
    assert(gives(
        get_webauthn_challenge_script(config, user_id, email, data, replies),
        challenge_answer(options),
        4,
    ));
}

/// `POST /api/two-factor/webauthn` checks the caller and the number, which must be free; the key is
/// registered under it, and the answer tells all keys, as being on.
pub proof fn law_activate_webauthn(
    config: PasskeyConfigModel,
    user_id: Seq<char>,
    data: WebauthnRegisterDataModel,
    number: i32,
    user: UserModel,
    error: AppErrorModel,
    broken: DbErrorModel,
    rest: Seq<ReplyModel>,
)
    ensures
        ({
            let after = |replies: Seq<ReplyModel>|
                activate_webauthn_script(config, user_id, data, replies);
            let none = Seq::<ReplyModel>::empty();
            let found = none.push(ReplyModel::User(Ok(user)));
            let verified = found.push(ReplyModel::Verified(Ok(())));
            let all = verified.push(ReplyModel::Presence(Ok(false))) + rest;
            let registered = register_key_script(config, user_id, number, data, all, 3);
            &&& asks(after(none), ActionModel::FindUser { user_id })
            &&& fails(after(none.push(ReplyModel::User(Err(error)))), error)
            &&& asks(
                after(found),
                ActionModel::VerifyUser {
                    data: PasswordOrOtpDataModel {
                        master_password_hash: data.master_password_hash,
                        otp: data.otp,
                    },
                },
            )
            &&& fails(after(found.push(ReplyModel::Verified(Err(error)))), error)
            &&& data.id.as_i32() matches Err(unfit) ==> fails(after(verified), unfit)
            &&& data.id.as_i32() == Ok::<i32, AppErrorModel>(number) ==> {
                &&& asks(
                    after(verified),
                    ActionModel::Fetch {
                        statement: StatementModel {
                            sql: "SELECT 1 AS present FROM webauthn_credentials WHERE user_id = ?1 AND usage = 'twofactor' AND provider_id = ?2 LIMIT 1"@,
                            params: seq![
                                SqlValueModel::Text(user_id),
                                SqlValueModel::Int(number as int),
                            ],
                        },
                        rows: Rows::Presence,
                    },
                )
                &&& fails_as(
                    after(verified.push(ReplyModel::Presence(Err(broken)))),
                    broken,
                    AppErrorModel::Database,
                )
                &&& refuses(
                    after(verified.push(ReplyModel::Presence(Ok(true)))),
                    "WebAuthn credential id already exists"@,
                )
                &&& ends_with(after(all), registered)
                &&& registered matches Ok((done, end)) ==> after(all) == answer_keys_script(
                    user_id,
                    true,
                    "twoFactorU2f"@,
                    all,
                    end,
                )
            }
        }),
{
}

/// A security key is registered with the time, the document of the request under the name of the
/// request, the caller and the number; then a recovery code is made where there is none.
pub proof fn law_key_is_registered(
    config: PasskeyConfigModel,
    user_id: Seq<char>,
    provider_id: i32,
    data: WebauthnRegisterDataModel,
    now_ms: i64,
    before: Seq<ReplyModel>,
    rest: Seq<ReplyModel>,
)
    ensures
        ({
            let at = before.len() as int;
            let all = before.push(ReplyModel::Time(now_ms)) + rest;
            let result = register_key_script(config, user_id, provider_id, data, all, at);
            let received = receive_registration_script(
                data.device_response,
                Some(data.name),
                all,
                at + 1,
            );
            &&& asks(
                register_key_script(config, user_id, provider_id, data, before, at),
                ActionModel::ReadClock,
            )
            &&& ends_with(result, received)
            &&& received matches Ok((registration, middle)) ==> {
                let finished = finish_ceremony_registration_script(
                    StoreModeModel::TwoFactorRegistration {
                        provider_id,
                        original_name: data.name,
                    },
                    user_id,
                    config,
                    registration,
                    now_ms,
                    all,
                    middle,
                );
                &&& ends_with(result, finished)
                &&& finished matches Ok((done, end)) ==> result
                    == generate_recovery_code_for_user_script(user_id, all, end)
            }
        }),
{
}

/// `POST /api/two-factor/webauthn/delete` checks the caller and the number, deletes the key of that
/// number, clears the recovery code where no factor is left, and answers with the keys that are
/// left. A number that no key has is refused.
pub proof fn law_delete_webauthn(
    user_id: Seq<char>,
    data: WebauthnDeleteDataModel,
    number: i32,
    user: UserModel,
    executed: Option<bool>,
    error: AppErrorModel,
    broken: DbErrorModel,
    rest: Seq<ReplyModel>,
)
    ensures
        ({
            let after = |replies: Seq<ReplyModel>| delete_webauthn_script(user_id, data, replies);
            let none = Seq::<ReplyModel>::empty();
            let found = none.push(ReplyModel::User(Ok(user)));
            let verified = found.push(ReplyModel::Verified(Ok(())));
            let all = verified.push(ReplyModel::Executed(Ok(Some(true)))) + rest;
            let clearing = clear_recovery_if_no_twofactor_script(user_id, all, 3);
            &&& asks(after(none), ActionModel::FindUser { user_id })
            &&& fails(after(none.push(ReplyModel::User(Err(error)))), error)
            &&& asks(
                after(found),
                ActionModel::VerifyUser {
                    data: PasswordOrOtpDataModel {
                        master_password_hash: data.master_password_hash,
                        otp: data.otp,
                    },
                },
            )
            &&& fails(after(found.push(ReplyModel::Verified(Err(error)))), error)
            &&& data.id.as_i32() matches Err(unfit) ==> fails(after(verified), unfit)
            &&& data.id.as_i32() == Ok::<i32, AppErrorModel>(number) ==> {
                &&& asks(
                    after(verified),
                    ActionModel::Execute {
                        statement: StatementModel {
                            sql: "DELETE FROM webauthn_credentials WHERE user_id = ?1 AND usage = 'twofactor' AND provider_id = ?2"@,
                            params: seq![
                                SqlValueModel::Text(user_id),
                                SqlValueModel::Int(number as int),
                            ],
                        },
                    },
                )
                &&& fails_as(
                    after(verified.push(ReplyModel::Executed(Err(broken)))),
                    broken,
                    AppErrorModel::Database,
                )
                &&& executed != Some(true) ==> refuses(
                    after(verified.push(ReplyModel::Executed(Ok(executed)))),
                    "Invalid credential id"@,
                )
                &&& ends_with(after(all), clearing)
                &&& clearing matches Ok((done, end)) ==> after(all) == answer_keys_script(
                    user_id,
                    false,
                    "twoFactorU2f"@,
                    all,
                    end,
                )
            }
        }),
{
}

} // verus!
