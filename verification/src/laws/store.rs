//! How credentials are kept in the database and read from it.
use vstd::prelude::*;
use super::{asks, fails_as, gives, text_or_sql_null};
use crate::error::AppErrorModel;
use crate::flow::{answered, or_database, ActionModel, ReplyModel, Rows};
use crate::identifier::uuid_text;
use crate::sql::{DbErrorModel, SqlValueModel, StatementModel};
use crate::webauthn::store::{
    delete_login_credential_script, delete_twofactor_credential_by_provider_id_script, insert_row,
    keep_passkey, list_twofactor_credentials_script, new_row, scoped,
    twofactor_provider_id_exists_script, CredentialUsage, NewPasskeyModel, StoreCall,
    StoreErrorModel, StoreModeModel, WebauthnCredentialRowModel, CREDENTIAL_COLUMNS,
};

verus! {

/// A store for login passkeys, or for one that is being registered, speaks of login passkeys; one
/// for security keys speaks of security keys.
pub proof fn law_usage(
    row_id: Seq<char>,
    provider_id: i32,
    original_name: Seq<char>,
)
    ensures
        StoreModeModel::Login.usage() == CredentialUsage::Login,
        (StoreModeModel::LoginRegistration { row_id, original_name }).usage()
            == CredentialUsage::Login,
        StoreModeModel::TwoFactor.usage() == CredentialUsage::TwoFactor,
        (StoreModeModel::TwoFactorRegistration { provider_id, original_name }).usage()
            == CredentialUsage::TwoFactor,
        CredentialUsage::Login.word() == "login"@,
        CredentialUsage::TwoFactor.word() == "twofactor"@,
{
}

/// The state of a ceremony is kept under the id of the passkey protocol, behind what it is for.
pub proof fn law_scoped_ids(id: Seq<char>)
    ensures
        scoped(CredentialUsage::Login, id) == "login"@ + ":"@ + id,
        scoped(CredentialUsage::TwoFactor, id) == "twofactor"@ + ":"@ + id,
{
}

/// The passkey protocol reads of a row who owns the credential, its id and key, its name, when it
/// was made and last used, and its counter.
pub proof fn law_rows_are_read(row: WebauthnCredentialRowModel)
    ensures
        row.passkey().user_id == row.user_id,
        row.passkey().cred_id == row.credential_id,
        row.passkey().public_key == row.public_key,
        row.passkey().name == row.name,
        row.passkey().created_at == row.created_at,
        row.passkey().last_used_at == row.last_used_at,
        row.passkey().counter == row.counter,
{
}

/// A row is written column by column, in the order of the columns.
pub proof fn law_rows_are_written(row: WebauthnCredentialRowModel)
    ensures
        insert_row(row).sql == "INSERT INTO webauthn_credentials ("@ + CREDENTIAL_COLUMNS@
            + ") VALUES (?1, ?2, ?3, ?4, ?5, ?6, ?7, ?8, ?9, ?10, ?11, ?12, ?13, ?14)"@,
        insert_row(row).params == seq![
            SqlValueModel::Text(row.id),
            SqlValueModel::Text(row.user_id),
            SqlValueModel::Text(row.usage),
            match row.provider_id {
                Some(number) => SqlValueModel::Int(number as int),
                None => SqlValueModel::Null,
            },
            SqlValueModel::Text(row.name),
            SqlValueModel::Text(row.credential_id),
            SqlValueModel::Text(row.public_key),
            SqlValueModel::Int(row.counter as int),
            text_or_sql_null(row.aaguid),
            SqlValueModel::Text(row.transports),
            SqlValueModel::Int(row.backup_eligible as int),
            SqlValueModel::Int(row.backup_state as int),
            SqlValueModel::Int(row.created_at as int),
            SqlValueModel::Int(row.last_used_at as int),
        ],
{
}

/// A new row holds what the passkey protocol knows of the credential, under the name that the user
/// gave. It has no transports and no backup yet, and was last used when it was made. The model of
/// the authenticator is what the protocol put behind the name, if that is a UUID.
pub proof fn law_new_rows(
    usage: CredentialUsage,
    row_id: Seq<char>,
    provider_id: Option<i32>,
    original_name: Seq<char>,
    passkey: NewPasskeyModel,
    suffix: Seq<char>,
)
    ensures
        ({
            let row = new_row(usage, row_id, provider_id, original_name, passkey);
            &&& row.id == row_id
            &&& row.user_id == passkey.user_id
            &&& usage == CredentialUsage::Login ==> row.usage == "login"@
            &&& usage == CredentialUsage::TwoFactor ==> row.usage == "twofactor"@
            &&& row.provider_id == provider_id
            &&& row.name == original_name
            &&& row.credential_id == passkey.cred_id
            &&& row.public_key == passkey.public_key
            &&& row.counter == passkey.counter
            &&& row.transports == "[]"@
            &&& row.backup_eligible == 0
            &&& row.backup_state == 0
            &&& row.created_at == passkey.created_at
            &&& row.last_used_at == passkey.created_at
            &&& passkey.name == original_name + "-"@ + suffix ==> row.aaguid == uuid_text(suffix)
            &&& (forall|suffix: Seq<char>| passkey.name != original_name + "-"@ + suffix)
                ==> row.aaguid is None
        }),
{
    let prefix = original_name + "-"@;
    if passkey.name == original_name + "-"@ + suffix {
        assert(passkey.name =~= prefix + suffix);
        assert(passkey.name.take(prefix.len() as int) =~= prefix);
        assert(passkey.name.skip(prefix.len() as int) =~= suffix);
    }
    if prefix.is_prefix_of(passkey.name) {
        let rest = passkey.name.skip(prefix.len() as int);
        assert(passkey.name =~= original_name + "-"@ + rest);
    }
}

/// A credential is kept by a store that was made to register it: a login passkey without a number,
/// a security key with the number it was registered under, each under the name of the request. No
/// other store keeps one.
pub proof fn law_only_registering_stores_keep(
    row_id: Seq<char>,
    chosen_id: Seq<char>,
    provider_id: i32,
    original_name: Seq<char>,
    passkey: NewPasskeyModel,
)
    ensures
        keep_passkey(
            StoreModeModel::LoginRegistration { row_id: chosen_id, original_name },
            row_id,
            passkey,
        ) == Ok::<StatementModel, StoreErrorModel>(
            insert_row(
                new_row(CredentialUsage::Login, row_id, None, original_name, passkey),
            ),
        ),
        keep_passkey(
            StoreModeModel::TwoFactorRegistration { provider_id, original_name },
            row_id,
            passkey,
        ) == Ok::<StatementModel, StoreErrorModel>(
            insert_row(
                new_row(
                    CredentialUsage::TwoFactor,
                    row_id,
                    Some(provider_id),
                    original_name,
                    passkey,
                ),
            ),
        ),
        keep_passkey(StoreModeModel::Login, row_id, passkey) == Err::<
            StatementModel,
            StoreErrorModel,
        >(StoreErrorModel { message: "create_passkey requires a registration-mode store"@ }),
        keep_passkey(StoreModeModel::TwoFactor, row_id, passkey) == Err::<
            StatementModel,
            StoreErrorModel,
        >(StoreErrorModel { message: "create_passkey requires a registration-mode store"@ }),
{
}

/// A store tells which call failed, and in the driver's words why. Values that could not be bound
/// and rows that could not be read are told without the call.
pub proof fn law_store_errors(call: StoreCall, error: AppErrorModel, text: Seq<char>)
    ensures
        call.error(DbErrorModel::Bind(error, text)).message == "bind error: "@ + text,
        call.error(DbErrorModel::Row(text)).message == "deser: "@ + text,
        call.error(DbErrorModel::Query(text)).message == (match call {
            StoreCall::CreatePasskey => "create_passkey"@,
            StoreCall::GetPasskey => "get_passkey"@,
            StoreCall::ListPasskeys => "list_passkeys"@,
            StoreCall::DeletePasskey => "delete_passkey"@,
            StoreCall::UpdateCounter => "update_counter"@,
            StoreCall::UpdateName => "update_name"@,
            StoreCall::SaveState => "save_state batch"@,
            StoreCall::GetState => "get_state"@,
            StoreCall::DeleteState => "delete_state"@,
        }) + ": "@ + text,
{
}

/// What an endpoint answers where the database does not: the error that was prepared where a value
/// could not be bound, what it says of rows of the wrong shape, and otherwise the database error.
pub proof fn law_database_errors(
    prepared: AppErrorModel,
    malformed: AppErrorModel,
    text: Seq<char>,
    error: DbErrorModel,
    value: int,
)
    ensures
        DbErrorModel::Bind(prepared, text).answer(malformed) == prepared,
        DbErrorModel::Query(text).answer(malformed) == AppErrorModel::Database,
        DbErrorModel::Row(text).answer(malformed) == malformed,
        answered(Ok::<int, DbErrorModel>(value), malformed) == Ok::<int, AppErrorModel>(value),
        answered(Err::<int, DbErrorModel>(error), malformed) == Err::<int, AppErrorModel>(
            error.answer(malformed),
        ),
        or_database(Ok::<int, DbErrorModel>(value)) == Ok::<int, AppErrorModel>(value),
        or_database(Err::<int, DbErrorModel>(error)) == Err::<int, AppErrorModel>(
            AppErrorModel::Database,
        ),
        SqlValueModel::optional_text(Some(text)) == SqlValueModel::Text(text),
        SqlValueModel::optional_text(None) == SqlValueModel::Null,
{
}

/// The security keys of a user, and of that user only, are read in the order of their numbers and
/// handed on as they are.
pub proof fn law_security_keys_are_listed(
    user_id: Seq<char>,
    found: Result<Seq<WebauthnCredentialRowModel>, DbErrorModel>,
    replies: Seq<ReplyModel>,
    at: int,
)
    requires
        0 <= at <= replies.len(),
        at < replies.len() ==> replies[at] == ReplyModel::SecurityKeys(found),
    ensures
        ({
            let result = list_twofactor_credentials_script(user_id, replies, at);
            if at == replies.len() {
                asks(
                    result,
                    ActionModel::Fetch {
                        statement: StatementModel {
                            sql: "SELECT "@ + CREDENTIAL_COLUMNS@
                                + " FROM webauthn_credentials WHERE user_id = ?1 AND usage = 'twofactor' ORDER BY provider_id ASC"@,
                            params: seq![SqlValueModel::Text(user_id)],
                        },
                        rows: Rows::SecurityKeys,
                    },
                )
            } else {
                match found {
                    Ok(rows) => gives(result, rows, at + 1),
                    Err(error) => fails_as(result, error, AppErrorModel::Database),
                }
            }
        }),
{
}

/// Whether a number is taken is asked for one user's security keys, and answered as the database
/// says.
pub proof fn law_number_is_looked_up(
    user_id: Seq<char>,
    provider_id: i32,
    found: Result<bool, DbErrorModel>,
    replies: Seq<ReplyModel>,
    at: int,
)
    requires
        0 <= at <= replies.len(),
        at < replies.len() ==> replies[at] == ReplyModel::Presence(found),
    ensures
        ({
            let result = twofactor_provider_id_exists_script(user_id, provider_id, replies, at);
            if at == replies.len() {
                asks(
                    result,
                    ActionModel::Fetch {
                        statement: StatementModel {
                            sql: "SELECT 1 AS present FROM webauthn_credentials WHERE user_id = ?1 AND usage = 'twofactor' AND provider_id = ?2 LIMIT 1"@,
                            params: seq![
                                SqlValueModel::Text(user_id),
                                SqlValueModel::Int(provider_id as int),
                            ],
                        },
                        rows: Rows::Presence,
                    },
                )
            } else {
                match found {
                    Ok(taken) => gives(result, taken, at + 1),
                    Err(error) => fails_as(result, error, AppErrorModel::Database),
                }
            }
        }),
{
}

/// A security key is deleted by its owner and its number, a login passkey by its row and its owner.
/// Only where the database tells that a row went was there one to delete.
pub proof fn law_credentials_are_deleted(
    user_id: Seq<char>,
    provider_id: i32,
    row_id: Seq<char>,
    executed: Result<Option<bool>, DbErrorModel>,
    replies: Seq<ReplyModel>,
    at: int,
)
    requires
        0 <= at <= replies.len(),
        at < replies.len() ==> replies[at] == ReplyModel::Executed(executed),
    ensures
        ({
            let key = delete_twofactor_credential_by_provider_id_script(
                user_id,
                provider_id,
                replies,
                at,
            );
            let passkey = delete_login_credential_script(user_id, row_id, replies, at);
            if at == replies.len() {
                &&& asks(
                    key,
                    ActionModel::Execute {
                        statement: StatementModel {
                            sql: "DELETE FROM webauthn_credentials WHERE user_id = ?1 AND usage = 'twofactor' AND provider_id = ?2"@,
                            params: seq![
                                SqlValueModel::Text(user_id),
                                SqlValueModel::Int(provider_id as int),
                            ],
                        },
                    },
                )
                &&& asks(
                    passkey,
                    ActionModel::Execute {
                        statement: StatementModel {
                            sql: "DELETE FROM webauthn_credentials WHERE id = ?1 AND user_id = ?2 AND usage = 'login'"@,
                            params: seq![
                                SqlValueModel::Text(row_id),
                                SqlValueModel::Text(user_id),
                            ],
                        },
                    },
                )
            } else {
                match executed {
                    Ok(Some(true)) => gives(key, true, at + 1) && gives(passkey, true, at + 1),
                    Ok(_) => gives(key, false, at + 1) && gives(passkey, false, at + 1),
                    Err(error) => {
                        &&& fails_as(key, error, AppErrorModel::Database)
                        &&& fails_as(passkey, error, AppErrorModel::Database)
                    },
                }
            }
        }),
{
}

} // verus!
