//! What is told of login passkeys that can unlock the vault, and how their keys are stored.
use vstd::prelude::*;
use super::{
    asks, fails, fails_as, gives, is_unexpected, law_new_member_goes_last, lists_texts,
    text_or_null, text_or_sql_null,
};
use crate::error::AppErrorModel;
use crate::flow::{ActionModel, ReplyModel, Rows};
use crate::json::{json_string_list, JsonModel};
use crate::models::WebAuthnRotateKeyDataModel;
use crate::sql::{DbErrorModel, SqlValueModel, StatementModel};
use crate::webauthn::prf::{
    create_prf_credential_script, get_login_row_id_by_credential_id_script,
    get_prf_option_by_credential_id_script, list_login_credentials_with_prf_script,
    rotate_prf_keys_script, rotate_prf_keys_statements, update_prf_keys_script,
    LoginCredentialWithPrfModel, PrfStatus,
};

verus! {

/// Whether the passkey has all of the keys that unlock the vault.
pub open spec fn has_every_key(credential: LoginCredentialWithPrfModel) -> bool {
    &&& credential.encrypted_user_key is Some
    &&& credential.encrypted_public_key is Some
    &&& credential.encrypted_private_key is Some
}

/// A passkey is unsupported exactly where its authenticator does not have the extension. With the
/// extension it is enabled where it has all of its keys, and otherwise supported, also where it has
/// none of them.
pub proof fn law_status(credential: LoginCredentialWithPrfModel)
    ensures
        credential.status() == PrfStatus::Unsupported <==> !credential.supports_prf,
        credential.status() == PrfStatus::Enabled <==> credential.supports_prf && has_every_key(
            credential,
        ),
        credential.status() == PrfStatus::Supported <==> credential.supports_prf && !has_every_key(
            credential,
        ),
{
}

/// Clients know the states by number.
pub proof fn law_status_numbers()
    ensures
        PrfStatus::Enabled.number() == 0,
        PrfStatus::Supported.number() == 1,
        PrfStatus::Unsupported.number() == 2,
{
}

/// How a passkey is listed: its id, its name, its state by number, and the two keys that the client
/// needs to renew them. With the extension and any key missing, the number is 1.
pub proof fn law_listed_passkey(credential: LoginCredentialWithPrfModel)
    ensures
        credential.response() == JsonModel::Object(
            seq![
                ("id"@, JsonModel::Text(credential.id)),
                ("name"@, JsonModel::Text(credential.name)),
                (
                    "prfStatus"@,
                    JsonModel::Number(
                        if !credential.supports_prf {
                            2
                        } else if has_every_key(credential) {
                            0
                        } else {
                            1
                        },
                    ),
                ),
                ("encryptedUserKey"@, text_or_null(credential.encrypted_user_key)),
                ("encryptedPublicKey"@, text_or_null(credential.encrypted_public_key)),
                ("object"@, JsonModel::Text("webAuthnCredential"@)),
            ],
        ),
{
    reveal_strlit("id");
    assert("id"@.len() == 2);
    reveal_strlit("name");
    assert("name"@.len() == 4);
    reveal_strlit("prfStatus");
    assert("prfStatus"@.len() == 9);
    reveal_strlit("encryptedUserKey");
    assert("encryptedUserKey"@.len() == 16);
    reveal_strlit("encryptedPublicKey");
    assert("encryptedPublicKey"@.len() == 18);
    reveal_strlit("object");
    assert("object"@.len() == 6);
    let id = ("id"@, JsonModel::Text(credential.id));
    let name = ("name"@, JsonModel::Text(credential.name));
    let status = ("prfStatus"@, JsonModel::Number(credential.status().number()));
    let user_key = ("encryptedUserKey"@, text_or_null(credential.encrypted_user_key));
    let public_key = ("encryptedPublicKey"@, text_or_null(credential.encrypted_public_key));
    let object = ("object"@, JsonModel::Text("webAuthnCredential"@));
    law_new_member_goes_last(Seq::empty(), id, seq![id]);
    law_new_member_goes_last(seq![id], name, seq![id, name]);
    law_new_member_goes_last(seq![id, name], status, seq![id, name, status]);
    law_new_member_goes_last(seq![id, name, status], user_key, seq![id, name, status, user_key]);
    law_new_member_goes_last(
        seq![id, name, status, user_key],
        public_key,
        seq![id, name, status, user_key, public_key],
    );
    law_new_member_goes_last(
        seq![id, name, status, user_key, public_key],
        object,
        seq![id, name, status, user_key, public_key, object],
    );
}

/// A passkey unlocks the vault only where it is enabled, and then by its own keys: the client gets
/// the private key, the user key, the id of the credential and the transports that are known for
/// it.
pub proof fn law_unlocking_passkey(credential: LoginCredentialWithPrfModel)
    ensures
        !(credential.supports_prf && has_every_key(credential)) ==> credential.prf_option() is None,
        credential.supports_prf && has_every_key(credential) ==> {
            &&& credential.prf_option() matches Some(JsonModel::Object(members))
            &&& members.len() == 4
            &&& members[0] == (
                "encryptedPrivateKey"@,
                JsonModel::Text(credential.encrypted_private_key->0),
            )
            &&& members[1] == (
                "encryptedUserKey"@,
                JsonModel::Text(credential.encrypted_user_key->0),
            )
            &&& members[2] == ("credentialId"@, JsonModel::Text(credential.credential_id))
            &&& members[3].0 == "transports"@
            &&& lists_texts(
                members[3].1,
                match json_string_list(credential.transports) {
                    Some(list) => list,
                    None => Seq::empty(),
                },
            )
        },
{
    reveal_strlit("encryptedPrivateKey");
    assert("encryptedPrivateKey"@.len() == 19);
    reveal_strlit("encryptedUserKey");
    assert("encryptedUserKey"@.len() == 16);
    reveal_strlit("credentialId");
    assert("credentialId"@.len() == 12);
    reveal_strlit("transports");
    assert("transports"@.len() == 10);
    if credential.supports_prf && has_every_key(credential) {
        let private_key = (
            "encryptedPrivateKey"@,
            JsonModel::Text(credential.encrypted_private_key->0),
        );
        let user_key = ("encryptedUserKey"@, JsonModel::Text(credential.encrypted_user_key->0));
        let id = ("credentialId"@, JsonModel::Text(credential.credential_id));
        let transports = (
            "transports"@,
            JsonModel::texts(
                match json_string_list(credential.transports) {
                    Some(list) => list,
                    None => Seq::empty(),
                },
            ),
        );
        law_new_member_goes_last(Seq::empty(), private_key, seq![private_key]);
        law_new_member_goes_last(seq![private_key], user_key, seq![private_key, user_key]);
        law_new_member_goes_last(seq![private_key, user_key], id, seq![private_key, user_key, id]);
        law_new_member_goes_last(
            seq![private_key, user_key, id],
            transports,
            seq![private_key, user_key, id, transports],
        );
    }
}

/// The record of a passkey's keys: which passkey, whether its authenticator has the extension, the
/// three keys, and when.
pub open spec fn key_record(
    row_id: Seq<char>,
    supports_prf: bool,
    user_key: Option<Seq<char>>,
    public_key: Option<Seq<char>>,
    private_key: Option<Seq<char>>,
    now_ms: i64,
) -> StatementModel {
    StatementModel {
        sql: "INSERT INTO webauthn_prf_credentials \
         (credential_row_id, supports_prf, encrypted_user_key, encrypted_public_key, \
         encrypted_private_key, updated_at) \
         VALUES (?1, ?2, ?3, ?4, ?5, ?6)"@,
        params: seq![
            SqlValueModel::Text(row_id),
            SqlValueModel::Bool(supports_prf),
            text_or_sql_null(user_key),
            text_or_sql_null(public_key),
            text_or_sql_null(private_key),
            SqlValueModel::Int(now_ms as int),
        ],
    }
}

/// A record with new keys in place of those it has, for this passkey and no other.
pub open spec fn key_update(
    row_id: Seq<char>,
    user_key: Seq<char>,
    public_key: Seq<char>,
    private_key: Seq<char>,
    now_ms: i64,
) -> StatementModel {
    StatementModel {
        sql: "UPDATE webauthn_prf_credentials \
         SET supports_prf = 1, encrypted_user_key = ?1, encrypted_public_key = ?2, \
             encrypted_private_key = ?3, updated_at = ?4 \
         WHERE credential_row_id = ?5"@,
        params: seq![
            SqlValueModel::Text(user_key),
            SqlValueModel::Text(public_key),
            SqlValueModel::Text(private_key),
            SqlValueModel::Int(now_ms as int),
            SqlValueModel::Text(row_id),
        ],
    }
}

/// Keeping the keys of a new passkey inserts one record, and is done whatever number of rows the
/// database tells.
pub proof fn law_keys_are_inserted(
    row_id: Seq<char>,
    supports_prf: bool,
    user_key: Option<Seq<char>>,
    public_key: Option<Seq<char>>,
    private_key: Option<Seq<char>>,
    now_ms: i64,
    executed: Result<Option<bool>, DbErrorModel>,
    replies: Seq<ReplyModel>,
    at: int,
)
    requires
        0 <= at <= replies.len(),
        at < replies.len() ==> replies[at] == ReplyModel::Executed(executed),
    ensures
        ({
            let result = create_prf_credential_script(
                row_id,
                supports_prf,
                user_key,
                public_key,
                private_key,
                now_ms,
                replies,
                at,
            );
            if at == replies.len() {
                asks(
                    result,
                    ActionModel::Execute {
                        statement: key_record(
                            row_id,
                            supports_prf,
                            user_key,
                            public_key,
                            private_key,
                            now_ms,
                        ),
                    },
                )
            } else {
                match executed {
                    Ok(_) => gives(result, (), at + 1),
                    Err(error) => fails_as(result, error, AppErrorModel::Database),
                }
            }
        }),
{
}

/// Replacing the keys of a passkey updates its record; where the database knows that there was no
/// record to update, the keys are inserted as the first.
pub proof fn law_keys_are_replaced(
    row_id: Seq<char>,
    user_key: Seq<char>,
    public_key: Seq<char>,
    private_key: Seq<char>,
    now_ms: i64,
    changed: Option<bool>,
    error: DbErrorModel,
    before: Seq<ReplyModel>,
)
    ensures
        ({
            let at = before.len() as int;
            let after = |replies: Seq<ReplyModel>|
                update_prf_keys_script(
                    row_id,
                    user_key,
                    public_key,
                    private_key,
                    now_ms,
                    replies,
                    at,
                );
            let updated = before.push(ReplyModel::Executed(Ok(changed)));
            &&& asks(
                after(before),
                ActionModel::Execute {
                    statement: key_update(row_id, user_key, public_key, private_key, now_ms),
                },
            )
            &&& fails_as(
                after(before.push(ReplyModel::Executed(Err(error)))),
                error,
                AppErrorModel::Database,
            )
            &&& changed != Some(false) ==> gives(after(updated), (), at + 1)
            &&& changed == Some(false) ==> {
                &&& asks(
                    after(updated),
                    ActionModel::Execute {
                        statement: key_record(
                            row_id,
                            true,
                            Some(user_key),
                            Some(public_key),
                            Some(private_key),
                            now_ms,
                        ),
                    },
                )
                &&& forall|inserted: Option<bool>|
                    gives(
                        #[trigger] after(updated.push(ReplyModel::Executed(Ok(inserted)))),
                        (),
                        at + 2,
                    )
                &&& fails_as(
                    after(updated.push(ReplyModel::Executed(Err(error)))),
                    error,
                    AppErrorModel::Database,
                )
            }
        }),
{
}

/// Rotating the keys updates the records that were named, in their order, each with its own two
/// keys and all with one time; the private keys stay.
pub proof fn law_keys_are_rotated(
    updates: Seq<WebAuthnRotateKeyDataModel>,
    now_ms: i64,
    executed: Result<Option<bool>, DbErrorModel>,
    replies: Seq<ReplyModel>,
    at: int,
)
    requires
        0 <= at <= replies.len(),
        at < replies.len() ==> replies[at] == ReplyModel::Executed(executed),
    ensures
        ({
            let result = rotate_prf_keys_script(updates, now_ms, replies, at);
            if at == replies.len() {
                asks(
                    result,
                    ActionModel::ExecuteAll {
                        statements: Seq::new(
                            updates.len(),
                            |i: int|
                                StatementModel {
                                    sql: "UPDATE webauthn_prf_credentials \
         SET encrypted_user_key = ?1, encrypted_public_key = ?2, updated_at = ?3 \
         WHERE credential_row_id = ?4"@,
                                    params: seq![
                                        SqlValueModel::Text(updates[i].encrypted_user_key),
                                        SqlValueModel::Text(updates[i].encrypted_public_key),
                                        SqlValueModel::Int(now_ms as int),
                                        SqlValueModel::Text(updates[i].id),
                                    ],
                                },
                        ),
                    },
                )
            } else {
                match executed {
                    Ok(_) => gives(result, (), at + 1),
                    Err(_) => fails(result, AppErrorModel::Database),
                }
            }
        }),
{
    let mine = Seq::new(
        updates.len(),
        |i: int|
            StatementModel {
                sql: "UPDATE webauthn_prf_credentials \
         SET encrypted_user_key = ?1, encrypted_public_key = ?2, updated_at = ?3 \
         WHERE credential_row_id = ?4"@,
                params: seq![
                    SqlValueModel::Text(updates[i].encrypted_user_key),
                    SqlValueModel::Text(updates[i].encrypted_public_key),
                    SqlValueModel::Int(now_ms as int),
                    SqlValueModel::Text(updates[i].id),
                ],
            },
    );
    assert(mine =~= rotate_prf_keys_statements(updates, now_ms));
}

/// The login passkeys of a user, and of that user only, are read with their keys, oldest first, and
/// handed on as they are.
pub proof fn law_passkeys_are_listed(
    user_id: Seq<char>,
    found: Result<Seq<LoginCredentialWithPrfModel>, DbErrorModel>,
    replies: Seq<ReplyModel>,
    at: int,
)
    requires
        0 <= at <= replies.len(),
        at < replies.len() ==> replies[at] == ReplyModel::LoginCredentials(found),
    ensures
        ({
            let result = list_login_credentials_with_prf_script(user_id, replies, at);
            if at == replies.len() {
                asks(
                    result,
                    ActionModel::Fetch {
                        statement: StatementModel {
                            sql: "SELECT c.id, c.credential_id, c.name, c.transports, \
         COALESCE(p.supports_prf, 0) AS supports_prf, \
         p.encrypted_user_key, p.encrypted_public_key, p.encrypted_private_key \
         FROM webauthn_credentials c \
         LEFT JOIN webauthn_prf_credentials p ON c.id = p.credential_row_id \
         WHERE c.user_id = ?1 AND c.usage = 'login' \
         ORDER BY c.created_at ASC"@,
                            params: seq![SqlValueModel::Text(user_id)],
                        },
                        rows: Rows::LoginCredentials,
                    },
                )
            } else {
                match found {
                    Ok(credentials) => gives(result, credentials, at + 1),
                    Err(error) => fails_as(result, error, AppErrorModel::Database),
                }
            }
        }),
{
}

/// The row of a login passkey is found by the id of its credential.
pub proof fn law_row_is_found(
    credential_id: Seq<char>,
    found: Result<Option<Seq<char>>, DbErrorModel>,
    replies: Seq<ReplyModel>,
    at: int,
)
    requires
        0 <= at <= replies.len(),
        at < replies.len() ==> replies[at] == ReplyModel::LoginRowId(found),
    ensures
        ({
            let result = get_login_row_id_by_credential_id_script(credential_id, replies, at);
            if at == replies.len() {
                asks(
                    result,
                    ActionModel::Fetch {
                        statement: StatementModel {
                            sql: "SELECT id FROM webauthn_credentials WHERE credential_id = ?1 AND usage = 'login'"@,
                            params: seq![SqlValueModel::Text(credential_id)],
                        },
                        rows: Rows::LoginRowId,
                    },
                )
            } else {
                match found {
                    Ok(row_id) => gives(result, row_id, at + 1),
                    Err(error) => fails_as(result, error, AppErrorModel::Database),
                }
            }
        }),
{
}

/// How a login passkey unlocks the vault is looked up by the id of its credential. There is an
/// answer only where the passkey is known and enabled, and it is the one told of that passkey.
pub proof fn law_unlocking_is_looked_up(
    credential_id: Seq<char>,
    found: Result<Option<LoginCredentialWithPrfModel>, DbErrorModel>,
    replies: Seq<ReplyModel>,
    at: int,
)
    requires
        0 <= at <= replies.len(),
        at < replies.len() ==> replies[at] == ReplyModel::LoginCredential(found),
    ensures
        ({
            let result = get_prf_option_by_credential_id_script(credential_id, replies, at);
            if at == replies.len() {
                asks(
                    result,
                    ActionModel::Fetch {
                        statement: StatementModel {
                            sql: "SELECT c.id, c.credential_id, c.name, c.transports, \
         COALESCE(p.supports_prf, 0) AS supports_prf, \
         p.encrypted_user_key, p.encrypted_public_key, p.encrypted_private_key \
         FROM webauthn_credentials c \
         LEFT JOIN webauthn_prf_credentials p ON c.id = p.credential_row_id \
         WHERE c.credential_id = ?1 AND c.usage = 'login'"@,
                            params: seq![SqlValueModel::Text(credential_id)],
                        },
                        rows: Rows::LoginCredential,
                    },
                )
            } else {
                match found {
                    Ok(Some(credential)) => gives(result, credential.prf_option(), at + 1),
                    Ok(None) => gives(result, None, at + 1),
                    Err(error) => fails_as(result, error, AppErrorModel::Database),
                }
            }
        }),
{
}

/// What a passkey unlocks with does not depend on where its transports came from.
pub proof fn law_unlocking_transports(
    credential: LoginCredentialWithPrfModel,
    transports: Seq<Seq<char>>,
)
    ensures
        credential.option_with(transports) is Some <==> credential.supports_prf && has_every_key(
            credential,
        ),
        credential.option_with(transports) matches Some(JsonModel::Object(members)) ==> {
            &&& members.len() == 4
            &&& members[0] == (
                "encryptedPrivateKey"@,
                text_or_null(credential.encrypted_private_key),
            )
            &&& members[1] == ("encryptedUserKey"@, text_or_null(credential.encrypted_user_key))
            &&& members[2] == ("credentialId"@, JsonModel::Text(credential.credential_id))
            &&& members[3].0 == "transports"@
            &&& lists_texts(members[3].1, transports)
        },
        credential.option_with(transports) matches Some(json) ==> json is Object,
{
    reveal_strlit("encryptedPrivateKey");
    assert("encryptedPrivateKey"@.len() == 19);
    reveal_strlit("encryptedUserKey");
    assert("encryptedUserKey"@.len() == 16);
    reveal_strlit("credentialId");
    assert("credentialId"@.len() == 12);
    reveal_strlit("transports");
    assert("transports"@.len() == 10);
    let private_key = ("encryptedPrivateKey"@, text_or_null(credential.encrypted_private_key));
    let user_key = ("encryptedUserKey"@, text_or_null(credential.encrypted_user_key));
    let id = ("credentialId"@, JsonModel::Text(credential.credential_id));
    let listed = ("transports"@, JsonModel::texts(transports));
    law_new_member_goes_last(Seq::empty(), private_key, seq![private_key]);
    law_new_member_goes_last(seq![private_key], user_key, seq![private_key, user_key]);
    law_new_member_goes_last(seq![private_key, user_key], id, seq![private_key, user_key, id]);
    law_new_member_goes_last(
        seq![private_key, user_key, id],
        listed,
        seq![private_key, user_key, id, listed],
    );
}

/// A reply that does not answer what was asked is told as such.
pub proof fn law_other_replies_are_unexpected(
    row_id: Seq<char>,
    supports_prf: bool,
    user_key: Seq<char>,
    public_key: Seq<char>,
    private_key: Seq<char>,
    updates: Seq<WebAuthnRotateKeyDataModel>,
    now_ms: i64,
    replies: Seq<ReplyModel>,
    at: int,
)
    requires
        0 <= at < replies.len(),
    ensures
        !(replies[at] is Executed) ==> {
            &&& is_unexpected(
                create_prf_credential_script(
                    row_id,
                    supports_prf,
                    Some(user_key),
                    Some(public_key),
                    Some(private_key),
                    now_ms,
                    replies,
                    at,
                ),
            )
            &&& is_unexpected(
                update_prf_keys_script(
                    row_id,
                    user_key,
                    public_key,
                    private_key,
                    now_ms,
                    replies,
                    at,
                ),
            )
            &&& is_unexpected(rotate_prf_keys_script(updates, now_ms, replies, at))
        },
        !(replies[at] is LoginCredentials) ==> is_unexpected(
            list_login_credentials_with_prf_script(row_id, replies, at),
        ),
        !(replies[at] is LoginRowId) ==> is_unexpected(
            get_login_row_id_by_credential_id_script(row_id, replies, at),
        ),
        !(replies[at] is LoginCredential) ==> is_unexpected(
            get_prf_option_by_credential_id_script(row_id, replies, at),
        ),
{
}

} // verus!
