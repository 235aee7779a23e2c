//! What the library promises, told from the outside: which action an endpoint asks for after which
//! replies, which values go into it, and what the caller gets in the end.
pub mod ceremony;
pub mod compat;
pub mod documents;
pub mod numbers;
pub mod origins;
pub mod prf;
pub mod store;
pub mod twofactor;
pub mod values;
pub mod webauth;

use vstd::prelude::*;
use crate::error::AppErrorModel;
use crate::flow::{ActionModel, ProgressModel, StopModel};
use crate::json::{law_members_are_set, JsonModel};
use crate::sql::{DbErrorModel, SqlValueModel};

verus! {

/// A procedure asks for this action.
pub open spec fn asks<T>(result: ProgressModel<T>, action: ActionModel) -> bool {
    result == Err::<(T, int), StopModel>(StopModel::Ask(action))
}

/// A procedure ends with this error.
pub open spec fn fails<T>(result: ProgressModel<T>, error: AppErrorModel) -> bool {
    result == Err::<(T, int), StopModel>(StopModel::Fail(error))
}

/// A procedure is refused as a bad request, with this text.
pub open spec fn refuses<T>(result: ProgressModel<T>, text: Seq<char>) -> bool {
    fails(result, AppErrorModel::BadRequest(text))
}

/// A procedure cannot read the reply it got.
pub open spec fn is_unexpected<T>(result: ProgressModel<T>) -> bool {
    result == Err::<(T, int), StopModel>(StopModel::Unexpected)
}

/// A procedure gives this value, having read the replies before `end`.
pub open spec fn gives<T>(result: ProgressModel<T>, value: T, end: int) -> bool {
    result == Ok::<(T, int), StopModel>((value, end))
}

/// A procedure ends as it does where the database gives no answer: with the error that was prepared
/// where a value could not be bound, with `malformed` where a row has the wrong shape, and
/// otherwise with the database error.
pub open spec fn fails_as<T>(
    result: ProgressModel<T>,
    error: DbErrorModel,
    malformed: AppErrorModel,
) -> bool {
    match error {
        DbErrorModel::Bind(prepared, _) => fails(result, prepared),
        DbErrorModel::Query(_) => fails(result, AppErrorModel::Database),
        DbErrorModel::Row(_) => fails(result, malformed),
    }
}

/// A text as JSON, or `null` where there is none.
pub open spec fn text_or_null(text: Option<Seq<char>>) -> JsonModel {
    match text {
        Some(text) => JsonModel::Text(text),
        None => JsonModel::Null,
    }
}

/// A text for the database, or `NULL` where there is none.
pub open spec fn text_or_sql_null(text: Option<Seq<char>>) -> SqlValueModel {
    match text {
        Some(text) => SqlValueModel::Text(text),
        None => SqlValueModel::Null,
    }
}

/// A JSON list of these texts, in this order.
pub open spec fn lists_texts(json: JsonModel, items: Seq<Seq<char>>) -> bool {
    &&& json matches JsonModel::List(list)
    &&& list.len() == items.len()
    &&& forall|i: int| 0 <= i < items.len() ==> #[trigger] list[i] == JsonModel::Text(items[i])
}

/// A member that a document lacks goes behind those that it has.
pub proof fn law_new_member_goes_last(
    before: Seq<(Seq<char>, JsonModel)>,
    member: (Seq<char>, JsonModel),
    after: Seq<(Seq<char>, JsonModel)>,
)
    requires
        forall|i: int| 0 <= i < before.len() ==> (#[trigger] before[i]).0 != member.0,
        after =~= before.push(member),
    ensures
        JsonModel::Object(before).with(member.0, member.1) == JsonModel::Object(after),
{
    law_members_are_set(before, member.0, member.1, before.len() as int);
}

} // verus!
