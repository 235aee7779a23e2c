//! The endpoints, each as a resumable procedure.
//!
//! Every endpoint starts at the first reply and gets through with the JSON document that it
//! answers.
pub mod conversation;
pub mod twofactor;
pub mod webauth;

use vstd::prelude::*;
use crate::flow::{
    chain, find_user, find_user_script, progress, verify_user, verify_user_script, ActionModel,
    Progress, ProgressModel, Reply, ReplyModel, StopModel,
};
use crate::models::{PasswordOrOtpData, PasswordOrOtpDataModel, User, UserModel};

verus! {

/// The account of the caller, who has proved to own it.
pub open spec fn authorize_script(
    user_id: Seq<char>,
    data: PasswordOrOtpDataModel,
    replies: Seq<ReplyModel>,
) -> ProgressModel<UserModel> {
    chain(
        find_user_script(user_id, replies, 0),
        |user: UserModel, at: int|
            chain(
                verify_user_script(data, replies, at),
                |verified: (), at: int| Ok((user, at)),
            ),
    )
}

/// The account of the caller, who has proved to own it.
pub fn authorize<'a>(user_id: &str, data: &PasswordOrOtpData, replies: &'a Vec<Reply>) -> (result:
    Progress<&'a User>)
    ensures
        progress(result) == authorize_script(user_id@, data.deep_view(), replies.deep_view()),
{
    let (user, at) = find_user(user_id, replies, 0)?;
    let (_verified, at) = verify_user(data, replies, at)?;
    Ok((user, at))
}

/// The name that an authenticator shows for an account.
pub open spec fn display_name(user: UserModel, email: Seq<char>) -> Seq<char> {
    match user.name {
        Some(name) => name,
        None => email,
    }
}

/// The name that an authenticator shows for an account: its own, or its email address.
pub fn displayed_name<'a>(user: &'a User, email: &'a str) -> (name: &'a str)
    ensures
        name@ == display_name(user.deep_view(), email@),
{
    match &user.name {
        Some(name) => name.as_str(),
        None => email,
    }
}

/// Whether the caller was found and has proved to own the account.
pub open spec fn vouched(replies: Seq<ReplyModel>) -> bool {
    &&& replies.len() >= 2
    &&& replies[0] matches ReplyModel::User(Ok(_))
    &&& replies[1] == ReplyModel::Verified(Ok(()))
}

/// Whether an endpoint does nothing for a caller before it knows who that is: it asks for the
/// account first and for the proof next, answers a failure of either with the very error, and asks
/// for anything else, or gets through, only once both are there.
pub open spec fn guarded<T>(
    result: ProgressModel<T>,
    user_id: Seq<char>,
    data: PasswordOrOtpDataModel,
    replies: Seq<ReplyModel>,
) -> bool {
    if replies.len() == 0 {
        result == Err::<(T, int), StopModel>(StopModel::Ask(ActionModel::FindUser { user_id }))
    } else {
        match replies[0] {
            ReplyModel::User(Err(error)) => result == Err::<(T, int), StopModel>(
                StopModel::Fail(error),
            ),
            ReplyModel::User(Ok(_)) => if replies.len() == 1 {
                result == Err::<(T, int), StopModel>(
                    StopModel::Ask(ActionModel::VerifyUser { data }),
                )
            } else {
                match replies[1] {
                    ReplyModel::Verified(Err(error)) => result == Err::<(T, int), StopModel>(
                        StopModel::Fail(error),
                    ),
                    ReplyModel::Verified(Ok(_)) => vouched(replies),
                    _ => result == Err::<(T, int), StopModel>(StopModel::Unexpected),
                }
            },
            _ => result == Err::<(T, int), StopModel>(StopModel::Unexpected),
        }
    }
}

} // verus!
