//! The guarantees the core gives across commands, each proved from the
//! contracts of the cache and of the dispatch halves.

use vstd::prelude::*;
use crate::cache::Cache;
use crate::cache::EntryModel;
use crate::cache::KeyModel;
use crate::cache::ValueModel;
use crate::cache::swept;
use crate::cache::upserted;
use crate::command::CommandModel;
use crate::command::OutcomeModel;
use crate::command::RequestModel;
use crate::command::StepModel;
use crate::process::plan_model;
use crate::process::settle_effect;
use crate::schema::PageModel;
use crate::schema::UserModel;

verus! {

/// After any command that writes a page value completes successfully — an
/// update, a create, or a read that filled the cache from the store — a
/// read of that path with the skip flag clear is answered from the cache
/// with exactly that value, and the store is not consulted.
pub proof fn lemma_write_then_cached_read_page(
    cmd: CommandModel,
    resp: OutcomeModel,
    pre: Cache,
    post: Cache,
    page: PageModel,
    now: int,
)
    requires
        settle_effect(cmd, resp, pre, post, now),
        resp == OutcomeModel::PageFound(page) || (resp is Done && (cmd == CommandModel::SetPage(
            page,
        ) || cmd == CommandModel::NewPage(page))),
        now + pre.ttl() <= i64::MAX,
    ensures
        plan_model(CommandModel::GetPage(page.path, false), post) == StepModel::Reply(
            OutcomeModel::PageFound(page),
        ),
{
}

/// The same guarantee for users: a successfully written or freshly fetched
/// user value is read back from the cache, without a store call.
pub proof fn lemma_write_then_cached_read_user(
    cmd: CommandModel,
    resp: OutcomeModel,
    pre: Cache,
    post: Cache,
    user: UserModel,
    now: int,
)
    requires
        settle_effect(cmd, resp, pre, post, now),
        resp == OutcomeModel::UserFound(user) || (resp is Done && (cmd == CommandModel::SetUser(
            user,
        ) || cmd == CommandModel::NewUser(user))),
        now + pre.ttl() <= i64::MAX,
    ensures
        plan_model(CommandModel::GetUser(user.id, false), post) == StepModel::Reply(
            OutcomeModel::UserFound(user),
        ),
{
}

/// Once an entry's expiry has passed and a sweep cycle has run, the next
/// read of that path with the skip flag clear misses the cache and goes to
/// the store. A path the cache never held misses just the same.
pub proof fn lemma_expired_read_misses_page(pre: Cache, post: Cache, path: Seq<char>, now: int)
    requires
        swept(pre, post, now),
        pre.lookup(KeyModel::Page(path)) matches Some(e) ==> e.valid_until < now,
    ensures
        plan_model(CommandModel::GetPage(path, false), post) == StepModel::Store(
            RequestModel::FetchPage(path),
        ),
{
}

/// The same for users: after the sweep, an expired or absent id reads
/// through to the store.
pub proof fn lemma_expired_read_misses_user(pre: Cache, post: Cache, id: u128, now: int)
    requires
        swept(pre, post, now),
        pre.lookup(KeyModel::User(id)) matches Some(e) ==> e.valid_until < now,
    ensures
        plan_model(CommandModel::GetUser(id, false), post) == StepModel::Store(
            RequestModel::FetchUser(id),
        ),
{
}

/// A read with the skip flag set always goes to the store, whatever the
/// cache holds: it is never answered from the cache.
pub proof fn lemma_skip_cache_reads_store(cache: Cache, path: Seq<char>, id: u128)
    ensures
        plan_model(CommandModel::GetPage(path, true), cache) == StepModel::Store(
            RequestModel::FetchPage(path),
        ),
        plan_model(CommandModel::GetUser(id, true), cache) == StepModel::Store(
            RequestModel::FetchUser(id),
        ),
{
}

/// Writes are totally ordered: when one write command completes in full
/// before a second one starts — which is how the single-consumer loop runs
/// them — writes to distinct keys never partially interleave, and both
/// land intact, each with the expiry of its own instant.
pub proof fn lemma_writes_do_not_interleave(
    c0: Cache,
    c1: Cache,
    c2: Cache,
    a: PageModel,
    b: PageModel,
    t1: int,
    t2: int,
)
    requires
        upserted(c0, c1, ValueModel::Page(a), t1),
        upserted(c1, c2, ValueModel::Page(b), t2),
        a.path != b.path,
        t1 + c0.ttl() <= i64::MAX,
        t2 + c0.ttl() <= i64::MAX,
    ensures
        c2.lookup(KeyModel::Page(a.path)) == Some(
            EntryModel {
                key: KeyModel::Page(a.path),
                value: ValueModel::Page(a),
                valid_until: t1 + c0.ttl(),
            },
        ),
        c2.lookup(KeyModel::Page(b.path)) == Some(
            EntryModel {
                key: KeyModel::Page(b.path),
                value: ValueModel::Page(b),
                valid_until: t2 + c0.ttl(),
            },
        ),
{
}

} // verus!
