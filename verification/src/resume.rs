//! What holds of a procedure however often it is resumed.
//!
//! A procedure is called with ever more replies. It should behave as one conversation: each call
//! repeats what the calls before it decided, every reply was asked for, none is left unread, a
//! failure ends it, and it is over after a known number of replies.
use vstd::prelude::*;
use crate::flow::{answers, failed, ActionModel, ProgressModel, ReplyModel, StopModel};

verus! {

/// A procedure with its arguments: what it says to the replies there are.
pub type Script<T> = spec_fn(Seq<ReplyModel>) -> ProgressModel<T>;

/// Whether the procedure, with the first `k` replies only, asks for something.
pub open spec fn asks<T>(script: Script<T>, replies: Seq<ReplyModel>, k: int) -> bool {
    script(replies.take(k)) matches Err(StopModel::Ask(_))
}

/// Whether reply `k` is of the kind that the procedure asked for.
pub open spec fn fits<T>(script: Script<T>, replies: Seq<ReplyModel>, k: int) -> bool {
    script(replies.take(k)) matches Err(StopModel::Ask(action)) && answers(action, replies[k])
}

/// Whether the conversation, from reply `at` on, is over at `to`, or waits there for a reply.
///
/// Up to there every reply was asked for; every one but the last is of the right kind and tells of
/// no failure. The last may fail the procedure, or not fit at all. From there on more replies make
/// no difference. `most` bounds how many replies are read.
pub open spec fn ends_at<T>(
    script: Script<T>,
    replies: Seq<ReplyModel>,
    at: int,
    most: nat,
    to: int,
) -> bool {
    &&& 0 <= at <= to <= replies.len()
    &&& to - at <= most
    &&& forall|k: int| at <= k < to ==> #[trigger] asks(script, replies, k)
    &&& forall|k: int|
        at <= k < to - 1 ==> #[trigger] fits(script, replies, k) && !failed(replies[k])
    &&& forall|k: int|
        to <= k <= replies.len() ==> #[trigger] script(replies.take(k)) == script(replies)
    &&& match script(replies) {
        Ok((_, end)) => end == to && (to > at ==> fits(script, replies, to - 1) && !failed(
            replies[to - 1],
        )),
        Err(StopModel::Ask(_)) => to == replies.len() && to - at < most && (to > at ==> fits(
            script,
            replies,
            to - 1,
        ) && !failed(replies[to - 1])),
        Err(StopModel::Fail(_)) => to > at ==> fits(script, replies, to - 1),
        Err(StopModel::Unexpected) => to > at && !fits(script, replies, to - 1),
    }
}

/// Whether the procedure, from reply `at` on, is one conversation of at most `most` replies.
pub open spec fn steady<T>(script: Script<T>, replies: Seq<ReplyModel>, at: int, most: nat) -> bool {
    exists|to: int| #[trigger] ends_at(script, replies, at, most, to)
}

/// Whether every reply was asked for and is of the kind that was asked for.
pub open spec fn genuine<T>(script: Script<T>, replies: Seq<ReplyModel>) -> bool {
    forall|k: int| 0 <= k < replies.len() ==> #[trigger] fits(script, replies, k)
}

/// A steady procedure that only gets the replies it asks for never meets one that it cannot read,
/// reads every one of them, is through after `most` of them, and gets through, or asks for more,
/// only where no reply told of a failure.
pub proof fn law_genuine_replies_are_all_read<T>(
    script: Script<T>,
    replies: Seq<ReplyModel>,
    most: nat,
)
    requires
        steady(script, replies, 0, most),
        genuine(script, replies),
    ensures
        replies.len() <= most,
        match script(replies) {
            Ok((_, end)) => end == replies.len() && forall|k: int|
                0 <= k < replies.len() ==> !failed(#[trigger] replies[k]),
            Err(StopModel::Ask(_)) => replies.len() < most && forall|k: int|
                0 <= k < replies.len() ==> !failed(#[trigger] replies[k]),
            Err(StopModel::Fail(_)) => forall|k: int|
                0 <= k < replies.len() - 1 ==> !failed(#[trigger] replies[k]),
            Err(StopModel::Unexpected) => false,
        },
{
    let to = choose|to: int| #[trigger] ends_at(script, replies, 0, most, to);
    assert(replies.take(replies.len() as int) =~= replies);
    if to < replies.len() {
        assert(fits(script, replies, to));
        assert(script(replies.take(to)) == script(replies));
        assert(false);
    }
    assert forall|k: int| 0 <= k < replies.len() - 1 implies !failed(#[trigger] replies[k]) by {
        assert(fits(script, replies, k));
    }
}

/// A steady procedure stops at a failure: the reply that tells of one is the last that it reads,
/// and it fails.
pub proof fn law_failure_ends_the_conversation<T>(
    script: Script<T>,
    replies: Seq<ReplyModel>,
    most: nat,
    k: int,
)
    requires
        steady(script, replies, 0, most),
        0 <= k < replies.len(),
        fits(script, replies, k),
        failed(replies[k]),
    ensures
        script(replies) matches Err(StopModel::Fail(_)),
{
    let to = choose|to: int| #[trigger] ends_at(script, replies, 0, most, to);
    if k >= to {
        assert(script(replies.take(k)) == script(replies));
    } else if k < to - 1 {
        assert(false);
    }
}

/// What a steady procedure has decided stays decided: once it is through or has failed, further
/// replies change nothing.
pub proof fn law_decisions_stay<T>(
    script: Script<T>,
    replies: Seq<ReplyModel>,
    most: nat,
    k: int,
)
    requires
        steady(script, replies, 0, most),
        0 <= k <= replies.len(),
        !asks(script, replies, k),
    ensures
        script(replies) == script(replies.take(k)),
{
    let to = choose|to: int| #[trigger] ends_at(script, replies, 0, most, to);
    if k < to {
        assert(asks(script, replies, k));
    }
}

/// A procedure that asks for one thing, and goes by the reply to it alone, is steady.
pub proof fn lemma_single<T>(
    script: Script<T>,
    action: ActionModel,
    replies: Seq<ReplyModel>,
    at: int,
)
    requires
        0 <= at <= replies.len(),
        forall|k: int|
            at <= k <= replies.len() ==> #[trigger] script(replies.take(k)) == if k == at {
                Err(StopModel::Ask(action))
            } else {
                script(replies)
            },
        at < replies.len() ==> match script(replies) {
            Ok((_, end)) => end == at + 1 && answers(action, replies[at]) && !failed(replies[at]),
            Err(StopModel::Ask(_)) => false,
            Err(StopModel::Fail(_)) => answers(action, replies[at]),
            Err(StopModel::Unexpected) => !answers(action, replies[at]),
        },
    ensures
        steady(script, replies, at, 1),
{
    assert(replies.take(replies.len() as int) =~= replies);
    let to: int = if at < replies.len() {
        at + 1
    } else {
        at
    };
    let _ = script(replies.take(at));
    assert(ends_at(script, replies, at, 1, to));
}

/// A procedure that asks for nothing more is steady.
pub proof fn lemma_done<T>(script: Script<T>, replies: Seq<ReplyModel>, at: int)
    requires
        0 <= at <= replies.len(),
        forall|k: int|
            at <= k <= replies.len() ==> #[trigger] script(replies.take(k)) == script(replies),
        match script(replies) {
            Ok((_, end)) => end == at,
            Err(stop) => stop is Fail,
        },
    ensures
        steady(script, replies, at, 0),
{
    assert(ends_at(script, replies, at, 0, at));
}

/// A procedure that starts with a steady one, and is steady from where that one got through, is
/// steady.
pub proof fn lemma_then<T, U>(
    first: Script<T>,
    whole: Script<U>,
    replies: Seq<ReplyModel>,
    at: int,
    before: nat,
    after: nat,
)
    requires
        steady(first, replies, at, before),
        first(replies) matches Ok((_, to)) ==> steady(whole, replies, to, after),
        forall|k: int|
            at <= k <= replies.len() ==> match #[trigger] first(replies.take(k)) {
                Ok(_) => true,
                Err(stop) => whole(replies.take(k)) == Err::<(U, int), StopModel>(stop),
            },
    ensures
        steady(whole, replies, at, before + after),
{
    assert(replies.take(replies.len() as int) =~= replies);
    let mid = choose|to: int| #[trigger] ends_at(first, replies, at, before, to);
    assert(first(replies.take(replies.len() as int)) == first(replies));
    assert forall|k: int| at <= k < mid implies #[trigger] asks(whole, replies, k) && fits(
        whole,
        replies,
        k,
    ) == fits(first, replies, k) by {
        assert(asks(first, replies, k));
    }
    assert forall|k: int| at <= k < mid - 1 implies #[trigger] fits(whole, replies, k) && !failed(
        replies[k],
    ) by {
        assert(asks(whole, replies, k));
        assert(fits(first, replies, k));
    }
    if mid > at {
        assert(asks(whole, replies, mid - 1));
    }
    match first(replies) {
        Ok(_) => {
            let to = choose|to: int| #[trigger] ends_at(whole, replies, mid, after, to);
            assert(ends_at(whole, replies, at, before + after, to));
        },
        Err(_) => {
            assert forall|k: int| mid <= k <= replies.len() implies #[trigger] whole(
                replies.take(k),
            ) == whole(replies) by {
                assert(first(replies.take(k)) == first(replies));
            }
            assert(ends_at(whole, replies, at, before + after, mid));
        },
    }
}

/// A procedure that goes on as a steady one does is steady.
pub proof fn lemma_same<T>(
    rest: Script<T>,
    whole: Script<T>,
    replies: Seq<ReplyModel>,
    at: int,
    most: nat,
)
    requires
        steady(rest, replies, at, most),
        forall|k: int|
            at <= k <= replies.len() ==> #[trigger] whole(replies.take(k)) == rest(replies.take(k)),
    ensures
        steady(whole, replies, at, most),
{
    assert(replies.take(replies.len() as int) =~= replies);
    let to = choose|to: int| #[trigger] ends_at(rest, replies, at, most, to);
    assert(whole(replies.take(replies.len() as int)) == rest(replies));
    assert forall|k: int| at <= k < to implies #[trigger] asks(whole, replies, k) && fits(
        whole,
        replies,
        k,
    ) == fits(rest, replies, k) by {
        assert(asks(rest, replies, k));
        let _ = whole(replies.take(k));
    }
    assert forall|k: int| at <= k < to - 1 implies #[trigger] fits(whole, replies, k) && !failed(
        replies[k],
    ) by {
        assert(asks(whole, replies, k));
        assert(fits(rest, replies, k));
    }
    if to > at {
        assert(asks(whole, replies, to - 1));
    }
    assert forall|k: int| to <= k <= replies.len() implies #[trigger] whole(replies.take(k)) == whole(
        replies,
    ) by {
        assert(rest(replies.take(k)) == rest(replies));
    }
    assert(ends_at(whole, replies, at, most, to));
}

/// A procedure that reads at most so many replies reads at most more.
pub proof fn lemma_more<T>(
    script: Script<T>,
    replies: Seq<ReplyModel>,
    at: int,
    most: nat,
    more: nat,
)
    requires
        steady(script, replies, at, most),
        most <= more,
    ensures
        steady(script, replies, at, more),
{
    let to = choose|to: int| #[trigger] ends_at(script, replies, at, most, to);
    assert(ends_at(script, replies, at, more, to));
}

} // verus!
