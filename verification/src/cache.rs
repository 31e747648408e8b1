//! The TTL cache: an in-memory table from entity key to a value snapshot
//! with an absolute expiry instant.
//!
//! Reads do not check expiry themselves: an entry that expired since the
//! last sweep may still be returned, so the staleness bound equals the sweep
//! interval. That bound is an accepted trade-off of the design, not a bug;
//! the periodic [`Cache::sweep`] is what evicts expired entries.
//!
//! The time-to-live is configuration, fixed when the table is built. The
//! sweep and the timed insertions take the instant as an argument, so they
//! are verified for every clock reading; [`Cache::set_page`] and
//! [`Cache::set_user`] only read the wall clock and delegate.

use vstd::prelude::*;
use vstd::pervasive::VecAdditionalExecFns;
use crate::schema::AdminUser;
use crate::schema::Page;
use crate::schema::PageModel;
use crate::schema::UserModel;

verus! {

/// A tagged cache key: a page is keyed by its path, a user by its id.
pub enum CacheKey {
    Page(String),
    User(u128),
}

/// The mathematical value of a [`CacheKey`].
pub enum KeyModel {
    Page(Seq<char>),
    User(u128),
}

impl View for CacheKey {
    type V = KeyModel;

    open spec fn view(&self) -> KeyModel {
        match self {
            CacheKey::Page(path) => KeyModel::Page(path@),
            CacheKey::User(id) => KeyModel::User(*id),
        }
    }
}

/// A cached value snapshot of either entity kind.
pub enum CacheValue {
    Page(Page),
    User(AdminUser),
}

/// The mathematical value of a [`CacheValue`].
pub enum ValueModel {
    Page(PageModel),
    User(UserModel),
}

impl View for CacheValue {
    type V = ValueModel;

    open spec fn view(&self) -> ValueModel {
        match self {
            CacheValue::Page(page) => ValueModel::Page(page@),
            CacheValue::User(user) => ValueModel::User(user@),
        }
    }
}

/// The key a value snapshot is cached under: a page under its path, a user
/// under its id.
pub open spec fn value_key(v: ValueModel) -> KeyModel {
    match v {
        ValueModel::Page(page) => KeyModel::Page(page.path),
        ValueModel::User(user) => KeyModel::User(user.id),
    }
}

/// One cache slot: a value snapshot and the instant it expires,
/// microseconds since the Unix epoch.
struct CacheEntry {
    key: CacheKey,
    value: CacheValue,
    valid_until: i64,
}

/// The mathematical value of one cache slot.
pub struct EntryModel {
    pub key: KeyModel,
    pub value: ValueModel,
    pub valid_until: int,
}

impl View for CacheEntry {
    type V = EntryModel;

    closed spec fn view(&self) -> EntryModel {
        EntryModel { key: self.key@, value: self.value@, valid_until: self.valid_until as int }
    }
}

impl DeepView for CacheEntry {
    type V = EntryModel;

    closed spec fn deep_view(&self) -> EntryModel {
        self.view()
    }
}

/// An entry is coherent when it is keyed by its own value's identifier.
pub open spec fn entry_coherent(e: EntryModel) -> bool {
    e.key == value_key(e.value)
}

/// First entry of `s` whose key is `k`, if any.
spec fn seq_lookup(s: Seq<EntryModel>, k: KeyModel) -> Option<EntryModel>
    decreases s.len(),
{
    if s.len() <= 0 {
        None
    } else if s[0].key == k {
        Some(s[0])
    } else {
        seq_lookup(s.skip(1), k)
    }
}

/// The in-memory TTL table. Only the actor loop and the periodic sweep may
/// hold it mutably; callers of the core never touch it directly.
pub struct Cache {
    entries: Vec<CacheEntry>,
    ttl_micros: i64,
}

impl Cache {
    /// The table's contents as a sequence of entry values.
    spec fn model(self) -> Seq<EntryModel> {
        self.entries.deep_view()
    }

    /// The configured time-to-live, in microseconds.
    pub closed spec fn ttl(self) -> int {
        self.ttl_micros as int
    }

    /// The entry cached under `k`, if any.
    pub closed spec fn lookup(self, k: KeyModel) -> Option<EntryModel> {
        seq_lookup(self.model(), k)
    }

    /// Well-formedness: a nonnegative time-to-live, at most one entry per
    /// key, and every entry keyed by its value's identifier.
    pub closed spec fn wf(self) -> bool {
        &&& 0 <= self.ttl_micros
        &&& forall|i: int, j: int|
            0 <= i < j < self.model().len() ==> #[trigger] self.model()[i].key
                != #[trigger] self.model()[j].key
        &&& forall|i: int| 0 <= i < self.model().len() ==> entry_coherent(#[trigger] self.model()[i])
    }

    /// Builds an empty table with the given time-to-live (microseconds).
    pub fn new(ttl_micros: i64) -> (r: Cache)
        requires
            ttl_micros >= 0,
        ensures
            r.wf(),
            r.ttl() == ttl_micros,
            forall|k: KeyModel| #[trigger] r.lookup(k) is None,
    {
        let r = Cache { entries: Vec::new(), ttl_micros };
        proof {
            assert(r.model() =~= Seq::<EntryModel>::empty());
        }
        r
    }

    /// Index of the entry holding `key`, with no earlier entry holding it.
    fn index_of(&self, key: &CacheKey) -> (r: Option<usize>)
        ensures
            match r {
                Some(i) => {
                    &&& i < self.model().len()
                    &&& self.model()[i as int].key == key@
                    &&& forall|j: int| 0 <= j < i ==> self.model()[j].key != key@
                },
                None => forall|j: int| 0 <= j < self.model().len() ==> self.model()[j].key != key@,
            },
    {
        let mut i: usize = 0;
        while i < self.entries.len()
            invariant
                i <= self.model().len(),
                self.model().len() == self.entries.len(),
                forall|j: int| 0 <= j < i ==> self.model()[j].key != key@,
            decreases self.entries.len() - i,
        {
            if key_eq(&self.entries[i].key, key) {
                return Some(i);
            }
            i += 1;
        }
        None
    }

    /// Returns the page cached under `path`, whether or not it has expired;
    /// the staleness bound is the sweep interval.
    pub fn get_page(&self, path: &String) -> (r: Option<Page>)
        requires
            self.wf(),
        ensures
            match self.lookup(KeyModel::Page(path@)) {
                Some(e) => r matches Some(p) && ValueModel::Page(p@) == e.value,
                None => r is None,
            },
    {
        let key = CacheKey::Page(path.clone());
        match self.index_of(&key) {
            Some(i) => {
                proof {
                    lemma_lookup_first(self.model(), key@, i as int);
                }
                match &self.entries[i].value {
                    CacheValue::Page(page) => Some(page.clone()),
                    CacheValue::User(_) => {
                        proof {
                            assert(!entry_coherent(self.model()[i as int]));
                        }
                        None
                    },
                }
            },
            None => {
                proof {
                    lemma_lookup_none_iff(self.model(), key@);
                }
                None
            },
        }
    }

    /// Returns the user cached under `id`, whether or not it has expired;
    /// the staleness bound is the sweep interval.
    pub fn get_user(&self, id: u128) -> (r: Option<AdminUser>)
        requires
            self.wf(),
        ensures
            match self.lookup(KeyModel::User(id)) {
                Some(e) => r matches Some(u) && ValueModel::User(u@) == e.value,
                None => r is None,
            },
    {
        let key = CacheKey::User(id);
        match self.index_of(&key) {
            Some(i) => {
                proof {
                    lemma_lookup_first(self.model(), key@, i as int);
                }
                match &self.entries[i].value {
                    CacheValue::User(user) => Some(user.clone()),
                    CacheValue::Page(_) => {
                        proof {
                            assert(!entry_coherent(self.model()[i as int]));
                        }
                        None
                    },
                }
            },
            None => {
                proof {
                    lemma_lookup_none_iff(self.model(), key@);
                }
                None
            },
        }
    }
}

/// Relates a table to one in which the value `v` has just been cached at
/// instant `now`: `v` is now present under its own key with a fresh expiry
/// of `now + ttl`, every other key is untouched, and the time-to-live is
/// unchanged. When the fresh expiry would not fit in the expiry field, the
/// table is left as it was.
pub open spec fn upserted(pre: Cache, post: Cache, v: ValueModel, now: int) -> bool {
    let k = value_key(v);
    &&& post.wf()
    &&& post.ttl() == pre.ttl()
    &&& if now + pre.ttl() <= i64::MAX {
        &&& post.lookup(k) == Some(
            EntryModel { key: k, value: v, valid_until: now + pre.ttl() },
        )
        &&& forall|k2: KeyModel| k2 != k ==> #[trigger] post.lookup(k2) == pre.lookup(k2)
    } else {
        post == pre
    }
}

/// Relates a table to one from which the key `k` has just been evicted:
/// `k` is absent, every other key is untouched.
pub open spec fn evicted(pre: Cache, post: Cache, k: KeyModel) -> bool {
    &&& post.wf()
    &&& post.ttl() == pre.ttl()
    &&& post.lookup(k) is None
    &&& forall|k2: KeyModel| k2 != k ==> #[trigger] post.lookup(k2) == pre.lookup(k2)
}

/// Relates a table to one a sweep at instant `now` has just run over:
/// every entry whose expiry has passed is gone, every other entry is kept
/// exactly as it was.
pub open spec fn swept(pre: Cache, post: Cache, now: int) -> bool {
    &&& post.wf()
    &&& post.ttl() == pre.ttl()
    &&& forall|k: KeyModel|
        #[trigger] post.lookup(k) == (match pre.lookup(k) {
            Some(e) => if e.valid_until < now {
                None::<EntryModel>
            } else {
                Some(e)
            },
            None => None::<EntryModel>,
        })
}

impl Cache {
    /// Inserts the entry, overwriting any entry of the same key.
    fn insert_entry(&mut self, e: CacheEntry)
        requires
            old(self).wf(),
            entry_coherent(e@),
        ensures
            final(self).wf(),
            final(self).ttl() == old(self).ttl(),
            final(self).lookup(e@.key) == Some(e@),
            forall|k2: KeyModel|
                k2 != e@.key ==> #[trigger] final(self).lookup(k2) == old(self).lookup(k2),
    {
        let ghost pre = self.model();
        let ghost em = e@;
        match self.index_of(&e.key) {
            Some(i) => {
                self.entries.set(i, e);
                proof {
                    let post = self.model();
                    assert(post =~= pre.update(i as int, em));
                    assert forall|a: int, b: int|
                        0 <= a < b < post.len() implies #[trigger] post[a].key
                        != #[trigger] post[b].key by {
                        assert(post[a].key == pre[a].key);
                        assert(post[b].key == pre[b].key);
                    }
                    lemma_lookup_first(post, em.key, i as int);
                    assert forall|k2: KeyModel|
                        k2 != em.key implies #[trigger] self.lookup(k2) == seq_lookup(
                        pre,
                        k2,
                    ) by {
                        lemma_lookup_frame(pre, post, k2);
                    }
                }
            },
            None => {
                self.entries.push(e);
                proof {
                    let post = self.model();
                    assert(post =~= pre.push(em));
                    assert forall|a: int, b: int|
                        0 <= a < b < post.len() implies #[trigger] post[a].key
                        != #[trigger] post[b].key by {
                        if b < pre.len() {
                            assert(post[a].key == pre[a].key);
                            assert(post[b].key == pre[b].key);
                        } else {
                            assert(post[a].key == pre[a].key);
                            assert(post[b] == em);
                        }
                    }
                    lemma_lookup_first(post, em.key, pre.len() as int);
                    assert forall|k2: KeyModel|
                        k2 != em.key implies #[trigger] self.lookup(k2) == seq_lookup(
                        pre,
                        k2,
                    ) by {
                        lemma_lookup_push_other(pre, em, k2);
                    }
                }
            },
        }
    }

    /// Removes the entry of the given key, if one is cached.
    fn remove_key(&mut self, key: &CacheKey)
        requires
            old(self).wf(),
        ensures
            evicted(*old(self), *final(self), key@),
    {
        match self.index_of(key) {
            Some(i) => {
                self.remove_at(i);
            },
            None => {
                proof {
                    lemma_lookup_none_iff(self.model(), key@);
                }
            },
        }
    }

    /// Removes the entry at index `i`.
    fn remove_at(&mut self, i: usize)
        requires
            old(self).wf(),
            i < old(self).entries.len(),
        ensures
            final(self).wf(),
            final(self).ttl() == old(self).ttl(),
            final(self).entries.len() == old(self).entries.len() - 1,
            final(self).lookup(old(self).model()[i as int].key) is None,
            forall|k2: KeyModel|
                k2 != old(self).model()[i as int].key ==> #[trigger] final(self).lookup(k2)
                    == old(self).lookup(k2),
    {
        let ghost pre = self.model();
        let ghost kx = pre[i as int].key;
        self.entries.remove(i);
        proof {
            let post = self.model();
            assert(post =~= pre.remove(i as int));
            assert forall|j: int| 0 <= j < post.len() implies (#[trigger] post[j] == if j < i {
                pre[j]
            } else {
                pre[j + 1]
            }) by {}
            assert forall|a: int, b: int|
                0 <= a < b < post.len() implies #[trigger] post[a].key
                != #[trigger] post[b].key by {}
            assert forall|j: int| 0 <= j < post.len() implies post[j].key != kx by {}
            lemma_lookup_none_iff(post, kx);
            assert forall|k2: KeyModel|
                k2 != kx implies #[trigger] self.lookup(k2) == seq_lookup(pre, k2) by {
                lemma_lookup_remove_other(pre, i as int, k2);
            }
        }
    }

    /// Caches the page under its path with expiry `now + ttl` (write-through
    /// and cache-aside both land here). When that instant does not fit in
    /// the expiry field, the table is left unchanged.
    pub fn set_page_at(&mut self, page: &Page, now: i64)
        requires
            old(self).wf(),
        ensures
            upserted(*old(self), *final(self), ValueModel::Page(page@), now as int),
    {
        match now.checked_add(self.ttl_micros) {
            Some(valid_until) => {
                let key = CacheKey::Page(page.path.clone());
                let value = CacheValue::Page(page.clone());
                self.insert_entry(CacheEntry { key, value, valid_until });
            },
            None => {},
        }
    }

    /// Caches the user under its id with expiry `now + ttl`; as for pages,
    /// an expiry that does not fit leaves the table unchanged.
    pub fn set_user_at(&mut self, user: &AdminUser, now: i64)
        requires
            old(self).wf(),
        ensures
            upserted(*old(self), *final(self), ValueModel::User(user@), now as int),
    {
        match now.checked_add(self.ttl_micros) {
            Some(valid_until) => {
                let key = CacheKey::User(user.id);
                let value = CacheValue::User(user.clone());
                self.insert_entry(CacheEntry { key, value, valid_until });
            },
            None => {},
        }
    }

    /// Caches the page at the instant the clock reads now.
    pub fn set_page(&mut self, page: &Page)
        requires
            old(self).wf(),
        ensures
            exists|t: i64| upserted(*old(self), *final(self), ValueModel::Page(page@), t as int),
    {
        let now = crate::clock::now_micros();
        self.set_page_at(page, now);
        proof {
            assert(upserted(*old(self), *self, ValueModel::Page(page@), now as int));
        }
    }

    /// Caches the user at the instant the clock reads now.
    pub fn set_user(&mut self, user: &AdminUser)
        requires
            old(self).wf(),
        ensures
            exists|t: i64| upserted(*old(self), *final(self), ValueModel::User(user@), t as int),
    {
        let now = crate::clock::now_micros();
        self.set_user_at(user, now);
        proof {
            assert(upserted(*old(self), *self, ValueModel::User(user@), now as int));
        }
    }

    /// Evicts the page cached under `path`, if any.
    pub fn evict_page(&mut self, path: &String)
        requires
            old(self).wf(),
        ensures
            evicted(*old(self), *final(self), KeyModel::Page(path@)),
    {
        let key = CacheKey::Page(path.clone());
        self.remove_key(&key);
    }

    /// Evicts the user cached under `id`, if any.
    pub fn evict_user(&mut self, id: u128)
        requires
            old(self).wf(),
        ensures
            evicted(*old(self), *final(self), KeyModel::User(id)),
    {
        let key = CacheKey::User(id);
        self.remove_key(&key);
    }

    /// Index of some entry whose expiry has passed, if any remains.
    fn find_expired(&self, now: i64) -> (r: Option<usize>)
        ensures
            match r {
                Some(i) => i < self.model().len() && self.model()[i as int].valid_until < now,
                None => forall|j: int|
                    0 <= j < self.model().len() ==> #[trigger] self.model()[j].valid_until >= now,
            },
    {
        let mut i: usize = 0;
        while i < self.entries.len()
            invariant
                i <= self.model().len(),
                self.model().len() == self.entries.len(),
                forall|j: int| 0 <= j < i ==> #[trigger] self.model()[j].valid_until >= now,
            decreases self.entries.len() - i,
        {
            if self.entries[i].valid_until < now {
                return Some(i);
            }
            i += 1;
        }
        None
    }

    /// One sweep cycle at instant `now`: removes every entry whose expiry
    /// has passed and keeps every other entry exactly as it was.
    pub fn sweep(&mut self, now: i64)
        requires
            old(self).wf(),
        ensures
            swept(*old(self), *final(self), now as int),
    {
        let ghost orig = *old(self);
        let mut done = false;
        while !done
            invariant
                self.wf(),
                self.ttl() == orig.ttl(),
                forall|k: KeyModel|
                    #[trigger] self.lookup(k) == orig.lookup(k) || (orig.lookup(
                        k,
                    ) matches Some(e) && e.valid_until < now && self.lookup(k) is None),
                done ==> forall|j: int|
                    0 <= j < self.model().len() ==> #[trigger] self.model()[j].valid_until >= now,
            decreases self.entries.len(), (if done { 0int } else { 1int }),
        {
            match self.find_expired(now) {
                Some(i) => {
                    let ghost pre = *self;
                    let ghost kx = self.model()[i as int].key;
                    proof {
                        lemma_lookup_first(pre.model(), kx, i as int);
                    }
                    self.remove_at(i);
                },
                None => {
                    done = true;
                },
            }
        }
        proof {
            assert forall|k: KeyModel|
                #[trigger] self.lookup(k) == (match orig.lookup(k) {
                    Some(e) => if e.valid_until < now as int {
                        None::<EntryModel>
                    } else {
                        Some(e)
                    },
                    None => None::<EntryModel>,
                }) by {
                lemma_lookup_member(self.model(), k);
            }
        }
    }
}

/// Whether two keys denote the same entity.
fn key_eq(a: &CacheKey, b: &CacheKey) -> (r: bool)
    ensures
        r == (a@ == b@),
{
    match (a, b) {
        (CacheKey::Page(x), CacheKey::Page(y)) => *x == *y,
        (CacheKey::User(x), CacheKey::User(y)) => *x == *y,
        (CacheKey::Page(_), CacheKey::User(_)) => false,
        (CacheKey::User(_), CacheKey::Page(_)) => false,
    }
}

/// A lookup misses exactly when no entry holds the key.
proof fn lemma_lookup_none_iff(s: Seq<EntryModel>, k: KeyModel)
    ensures
        (seq_lookup(s, k) is None) <==> (forall|j: int| 0 <= j < s.len() ==> s[j].key != k),
    decreases s.len(),
{
    if s.len() > 0 {
        lemma_lookup_none_iff(s.skip(1), k);
        assert forall|j: int| 0 <= j < s.skip(1).len() implies s.skip(1)[j] == s[j + 1] by {}
        if seq_lookup(s, k) is None {
            assert forall|j: int| 0 <= j < s.len() implies s[j].key != k by {
                if j > 0 {
                    assert(s.skip(1)[j - 1] == s[j]);
                }
            }
        }
    }
}

/// A first hit at index `i` is what the lookup returns.
proof fn lemma_lookup_first(s: Seq<EntryModel>, k: KeyModel, i: int)
    requires
        0 <= i < s.len(),
        s[i].key == k,
        forall|j: int| 0 <= j < i ==> s[j].key != k,
    ensures
        seq_lookup(s, k) == Some(s[i]),
    decreases i,
{
    if i > 0 {
        assert forall|j: int| 0 <= j < i - 1 implies s.skip(1)[j].key != k by {
            assert(s.skip(1)[j] == s[j + 1]);
        }
        assert(s.skip(1)[i - 1] == s[i]);
        lemma_lookup_first(s.skip(1), k, i - 1);
    }
}

/// What a lookup returns is an entry of the sequence, holding the key.
proof fn lemma_lookup_member(s: Seq<EntryModel>, k: KeyModel)
    ensures
        seq_lookup(s, k) matches Some(e) ==> exists|i: int|
            0 <= i < s.len() && s[i] == e && e.key == k,
    decreases s.len(),
{
    if s.len() > 0 && s[0].key != k {
        lemma_lookup_member(s.skip(1), k);
        match seq_lookup(s, k) {
            Some(e) => {
                let i = choose|i: int| 0 <= i < s.skip(1).len() && s.skip(1)[i] == e && e.key == k;
                assert(s[i + 1] == e);
            },
            None => {},
        }
    }
}

/// Lookups agree on sequences that differ only in entries of other keys.
proof fn lemma_lookup_frame(s1: Seq<EntryModel>, s2: Seq<EntryModel>, k: KeyModel)
    requires
        s1.len() == s2.len(),
        forall|j: int|
            0 <= j < s1.len() ==> (#[trigger] s1[j] == #[trigger] s2[j] || (s1[j].key != k
                && s2[j].key != k)),
    ensures
        seq_lookup(s1, k) == seq_lookup(s2, k),
    decreases s1.len(),
{
    if s1.len() > 0 {
        if s1[0].key == k {
            assert(s1[0] == s2[0]);
        } else if s2[0].key == k {
            assert(s1[0] == s2[0]);
        } else {
            assert forall|j: int| 0 <= j < s1.skip(1).len() implies (#[trigger] s1.skip(1)[j]
                == #[trigger] s2.skip(1)[j] || (s1.skip(1)[j].key != k && s2.skip(1)[j].key
                != k)) by {
                assert(s1.skip(1)[j] == s1[j + 1]);
                assert(s2.skip(1)[j] == s2[j + 1]);
            }
            lemma_lookup_frame(s1.skip(1), s2.skip(1), k);
        }
    }
}

/// Appending an entry of another key leaves a lookup unchanged.
proof fn lemma_lookup_push_other(s: Seq<EntryModel>, e: EntryModel, k: KeyModel)
    requires
        e.key != k,
    ensures
        seq_lookup(s.push(e), k) == seq_lookup(s, k),
    decreases s.len(),
{
    if s.len() == 0 {
        assert(s.push(e)[0] == e);
        assert(s.push(e).skip(1) =~= Seq::<EntryModel>::empty());
        assert(seq_lookup(s.push(e).skip(1), k) is None);
        assert(seq_lookup(s, k) is None);
    } else {
        assert(s.push(e)[0] == s[0]);
        if s[0].key != k {
            assert(s.push(e).skip(1) =~= s.skip(1).push(e));
            lemma_lookup_push_other(s.skip(1), e, k);
            assert(seq_lookup(s.push(e), k) == seq_lookup(s.push(e).skip(1), k));
            assert(seq_lookup(s, k) == seq_lookup(s.skip(1), k));
        } else {
            assert(seq_lookup(s.push(e), k) == Some(s[0]));
            assert(seq_lookup(s, k) == Some(s[0]));
        }
    }
}

/// Removing an entry of another key leaves a lookup unchanged.
proof fn lemma_lookup_remove_other(s: Seq<EntryModel>, i: int, k: KeyModel)
    requires
        0 <= i < s.len(),
        s[i].key != k,
    ensures
        seq_lookup(s.remove(i), k) == seq_lookup(s, k),
    decreases s.len(),
{
    if i == 0 {
        assert(s.remove(0) =~= s.skip(1));
    } else {
        assert(s.remove(i)[0] == s[0]);
        if s[0].key != k {
            assert(s.remove(i).skip(1) =~= s.skip(1).remove(i - 1));
            lemma_lookup_remove_other(s.skip(1), i - 1, k);
        }
    }
}

} // verus!
