//! Per-command behaviour of the actor loop, split around the store call.
//!
//! The loop that drains the inbound queue handles one command at a time, to
//! completion, before the next: [`plan`] decides from the cache whether the
//! command can be answered at once or which store request it needs, and
//! [`settle`] applies the store's outcome to the cache and yields the
//! reply. Both halves are total functions of their arguments, so the whole
//! exchange is verified for every store outcome and every clock reading;
//! only the queue, the store call itself and the reply slot live with the
//! surrounding runtime.

use vstd::prelude::*;
use crate::cache::Cache;
use crate::cache::KeyModel;
use crate::cache::ValueModel;
use crate::cache::evicted;
use crate::cache::upserted;
use crate::command::CommandModel;
use crate::command::DatabaseMpscCommand;
use crate::command::Outcome;
use crate::command::OutcomeModel;
use crate::command::RequestModel;
use crate::command::Step;
use crate::command::StepModel;
use crate::command::StoreRequest;
use crate::error::DataError;

verus! {

/// What [`plan`] decides for each command against a given cache: a read
/// with the skip flag clear is answered from the cache when its key is
/// present (no store access), and every other command becomes the one
/// store request its kind calls for.
pub open spec fn plan_model(cmd: CommandModel, cache: Cache) -> StepModel {
    match cmd {
        CommandModel::GetPage(path, skip) => {
            if skip {
                StepModel::Store(RequestModel::FetchPage(path))
            } else {
                match cache.lookup(KeyModel::Page(path)) {
                    Some(e) => match e.value {
                        ValueModel::Page(page) => StepModel::Reply(OutcomeModel::PageFound(page)),
                        ValueModel::User(_) => StepModel::Store(RequestModel::FetchPage(path)),
                    },
                    None => StepModel::Store(RequestModel::FetchPage(path)),
                }
            }
        },
        CommandModel::SetPage(page) => StepModel::Store(RequestModel::UpdatePage(page)),
        CommandModel::DeletePage(path) => StepModel::Store(RequestModel::RemovePage(path)),
        CommandModel::NewPage(page) => StepModel::Store(RequestModel::InsertPage(page)),
        CommandModel::GetUser(id, skip) => {
            if skip {
                StepModel::Store(RequestModel::FetchUser(id))
            } else {
                match cache.lookup(KeyModel::User(id)) {
                    Some(e) => match e.value {
                        ValueModel::User(user) => StepModel::Reply(OutcomeModel::UserFound(user)),
                        ValueModel::Page(_) => StepModel::Store(RequestModel::FetchUser(id)),
                    },
                    None => StepModel::Store(RequestModel::FetchUser(id)),
                }
            }
        },
        CommandModel::SetUser(user) => StepModel::Store(RequestModel::UpdateUser(user)),
        CommandModel::DeleteUser(id) => StepModel::Store(RequestModel::RemoveUser(id)),
        CommandModel::NewUser(user) => StepModel::Store(RequestModel::InsertUser(user)),
    }
}

/// First half of a command: consult the cache and decide. A cache hit on a
/// read (skip flag clear) is answered at once; everything else names the
/// store request to run before [`settle`] finishes the command.
pub fn plan(cmd: &DatabaseMpscCommand, cache: &Cache) -> (r: Step)
    requires
        cache.wf(),
    ensures
        r@ == plan_model(cmd@, *cache),
{
    match cmd {
        DatabaseMpscCommand::GetPage(path, skip) => {
            if !*skip {
                match cache.get_page(path) {
                    Some(page) => Step::Reply(Outcome::PageFound(page)),
                    None => Step::Store(StoreRequest::FetchPage(path.clone())),
                }
            } else {
                Step::Store(StoreRequest::FetchPage(path.clone()))
            }
        },
        DatabaseMpscCommand::SetPage(page) => Step::Store(StoreRequest::UpdatePage(page.clone())),
        DatabaseMpscCommand::DeletePage(path) => Step::Store(
            StoreRequest::RemovePage(path.clone()),
        ),
        DatabaseMpscCommand::NewPage(page) => Step::Store(StoreRequest::InsertPage(page.clone())),
        DatabaseMpscCommand::GetUser(id, skip) => {
            if !*skip {
                match cache.get_user(*id) {
                    Some(user) => Step::Reply(Outcome::UserFound(user)),
                    None => Step::Store(StoreRequest::FetchUser(*id)),
                }
            } else {
                Step::Store(StoreRequest::FetchUser(*id))
            }
        },
        DatabaseMpscCommand::SetUser(user) => Step::Store(StoreRequest::UpdateUser(user.clone())),
        DatabaseMpscCommand::DeleteUser(id) => Step::Store(StoreRequest::RemoveUser(*id)),
        DatabaseMpscCommand::NewUser(user) => Step::Store(StoreRequest::InsertUser(user.clone())),
    }
}

/// The outcomes the typed store adapter can report for each command: a row
/// only for the matching read, `Done` only for a write, and only the three
/// store-side errors.
pub open spec fn response_fits(cmd: CommandModel, resp: OutcomeModel) -> bool {
    match resp {
        OutcomeModel::PageFound(_) => cmd matches CommandModel::GetPage(_, _),
        OutcomeModel::UserFound(_) => cmd matches CommandModel::GetUser(_, _),
        OutcomeModel::Done => !(cmd matches CommandModel::GetPage(_, _)) && !(
        cmd matches CommandModel::GetUser(_, _)),
        OutcomeModel::Failed(e) => e == DataError::NotFound || e == DataError::Conflict || e
            == DataError::StoreUnavailable,
    }
}

/// How [`settle`] leaves the cache for each command and store outcome:
/// a failure leaves it untouched (in particular, a miss is never cached);
/// a fetched row is cached (cache-aside, also warming on a forced
/// refresh); a completed update or create caches the written value
/// (write-through); a completed delete evicts the entry at once.
pub open spec fn settle_effect(
    cmd: CommandModel,
    resp: OutcomeModel,
    pre: Cache,
    post: Cache,
    now: int,
) -> bool {
    match resp {
        OutcomeModel::Failed(_) => post == pre,
        OutcomeModel::PageFound(page) => upserted(pre, post, ValueModel::Page(page), now),
        OutcomeModel::UserFound(user) => upserted(pre, post, ValueModel::User(user), now),
        OutcomeModel::Done => match cmd {
            CommandModel::SetPage(page) => upserted(pre, post, ValueModel::Page(page), now),
            CommandModel::NewPage(page) => upserted(pre, post, ValueModel::Page(page), now),
            CommandModel::SetUser(user) => upserted(pre, post, ValueModel::User(user), now),
            CommandModel::NewUser(user) => upserted(pre, post, ValueModel::User(user), now),
            CommandModel::DeletePage(path) => evicted(pre, post, KeyModel::Page(path)),
            CommandModel::DeleteUser(id) => evicted(pre, post, KeyModel::User(id)),
            CommandModel::GetPage(_, _) => false,
            CommandModel::GetUser(_, _) => false,
        },
    }
}

/// Second half of a command: take the store's outcome, update the cache as
/// [`settle_effect`] states, and pass the outcome through unchanged as the
/// reply. `now` is the instant the fresh cache expiry is computed from.
pub fn settle(cmd: &DatabaseMpscCommand, resp: Outcome, cache: &mut Cache, now: i64) -> (r:
    Outcome)
    requires
        old(cache).wf(),
        response_fits(cmd@, resp@),
    ensures
        r@ == resp@,
        final(cache).wf(),
        settle_effect(cmd@, resp@, *old(cache), *final(cache), now as int),
{
    match resp {
        Outcome::Failed(e) => Outcome::Failed(e),
        Outcome::PageFound(page) => {
            cache.set_page_at(&page, now);
            Outcome::PageFound(page)
        },
        Outcome::UserFound(user) => {
            cache.set_user_at(&user, now);
            Outcome::UserFound(user)
        },
        Outcome::Done => {
            match cmd {
                DatabaseMpscCommand::SetPage(page) => cache.set_page_at(page, now),
                DatabaseMpscCommand::NewPage(page) => cache.set_page_at(page, now),
                DatabaseMpscCommand::SetUser(user) => cache.set_user_at(user, now),
                DatabaseMpscCommand::NewUser(user) => cache.set_user_at(user, now),
                DatabaseMpscCommand::DeletePage(path) => cache.evict_page(path),
                DatabaseMpscCommand::DeleteUser(id) => cache.evict_user(*id),
                DatabaseMpscCommand::GetPage(_, _) => {
                    proof {
                        assert(false);
                    }
                },
                DatabaseMpscCommand::GetUser(_, _) => {
                    proof {
                        assert(false);
                    }
                },
            }
            Outcome::Done
        },
    }
}

} // verus!
