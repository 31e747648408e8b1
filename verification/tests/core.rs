use magnetite::cache::Cache;
use magnetite::command::DatabaseMpscCommand;
use magnetite::command::Outcome;
use magnetite::command::Step;
use magnetite::command::StoreRequest;
use magnetite::error::DataError;
use magnetite::process::plan;
use magnetite::process::settle;
use magnetite::schema::AdminUser;
use magnetite::schema::Page;

const TTL: i64 = 30_000_000;

fn page(path: &str, body: &str) -> Page {
    Page {
        path: String::from(path),
        created_at: 1_700_000_000_000_000,
        created_by: 7,
        modified_at: 1_700_000_000_000_000,
        modified_by: 7,
        published: true,
        metadata: vec![String::from("<title>t</title>")],
        body: String::from(body),
    }
}

fn user(id: u128, name: &str) -> AdminUser {
    AdminUser {
        id,
        username: String::from(name),
        enabled: true,
        email: String::from("admin@example.org"),
    }
}

/// An in-memory stand-in for the relational store, reporting the same
/// outcome taxonomy the adapter does.
struct MockStore {
    pages: Vec<Page>,
    users: Vec<AdminUser>,
}

impl MockStore {
    fn new() -> MockStore {
        MockStore { pages: Vec::new(), users: Vec::new() }
    }

    fn execute(&mut self, req: StoreRequest) -> Outcome {
        match req {
            StoreRequest::FetchPage(path) => match self.pages.iter().find(|p| p.path == path) {
                Some(p) => Outcome::PageFound(p.clone()),
                None => Outcome::Failed(DataError::NotFound),
            },
            StoreRequest::UpdatePage(new) => {
                match self.pages.iter_mut().find(|p| p.path == new.path) {
                    Some(p) => {
                        *p = new;
                        Outcome::Done
                    }
                    None => Outcome::Failed(DataError::NotFound),
                }
            }
            StoreRequest::InsertPage(new) => {
                if self.pages.iter().any(|p| p.path == new.path) {
                    Outcome::Failed(DataError::Conflict)
                } else {
                    self.pages.push(new);
                    Outcome::Done
                }
            }
            StoreRequest::RemovePage(path) => {
                self.pages.retain(|p| p.path != path);
                Outcome::Done
            }
            StoreRequest::FetchUser(id) => match self.users.iter().find(|u| u.id == id) {
                Some(u) => Outcome::UserFound(u.clone()),
                None => Outcome::Failed(DataError::NotFound),
            },
            StoreRequest::UpdateUser(new) => {
                match self.users.iter_mut().find(|u| u.id == new.id) {
                    Some(u) => {
                        *u = new;
                        Outcome::Done
                    }
                    None => Outcome::Failed(DataError::NotFound),
                }
            }
            StoreRequest::InsertUser(new) => {
                if self.users.iter().any(|u| u.id == new.id) {
                    Outcome::Failed(DataError::Conflict)
                } else {
                    self.users.push(new);
                    Outcome::Done
                }
            }
            StoreRequest::RemoveUser(id) => {
                self.users.retain(|u| u.id != id);
                Outcome::Done
            }
        }
    }
}

/// Runs one command to completion the way the actor loop does, counting
/// store calls in `calls`.
fn run(
    store: &mut MockStore,
    cache: &mut Cache,
    cmd: DatabaseMpscCommand,
    now: i64,
    calls: &mut u32,
) -> Outcome {
    match plan(&cmd, cache) {
        Step::Reply(outcome) => outcome,
        Step::Store(req) => {
            *calls += 1;
            let resp = store.execute(req);
            settle(&cmd, resp, cache, now)
        }
    }
}

#[test]
fn write_then_read_hits_cache_without_store_call() {
    let mut store = MockStore::new();
    let mut cache = Cache::new(TTL);
    let mut calls: u32 = 0;
    let t = 1_000;

    let r = run(
        &mut store,
        &mut cache,
        DatabaseMpscCommand::NewPage(page("/x", "v1")),
        t,
        &mut calls,
    );
    assert!(matches!(r, Outcome::Done));
    assert_eq!(calls, 1);

    let r = run(
        &mut store,
        &mut cache,
        DatabaseMpscCommand::GetPage(String::from("/x"), false),
        t + 1,
        &mut calls,
    );
    match r {
        Outcome::PageFound(p) => assert_eq!(p.body, "v1"),
        _ => panic!("expected the page"),
    }
    assert_eq!(calls, 1);
}

#[test]
fn expired_entry_is_swept_and_next_read_goes_to_store() {
    let mut store = MockStore::new();
    let mut cache = Cache::new(TTL);
    let mut calls: u32 = 0;
    let t = 1_000;

    run(
        &mut store,
        &mut cache,
        DatabaseMpscCommand::NewPage(page("/x", "v1")),
        t,
        &mut calls,
    );
    assert_eq!(calls, 1);

    cache.sweep(t + TTL + 1);

    let r = run(
        &mut store,
        &mut cache,
        DatabaseMpscCommand::GetPage(String::from("/x"), false),
        t + TTL + 2,
        &mut calls,
    );
    assert!(matches!(r, Outcome::PageFound(_)));
    assert_eq!(calls, 2);
}

#[test]
fn entry_not_yet_swept_may_still_be_returned() {
    // The documented staleness bound: an entry whose expiry has passed is
    // still served until a sweep cycle runs.
    let mut cache = Cache::new(TTL);
    cache.set_page_at(&page("/x", "v1"), 1_000);
    assert!(cache.get_page(&String::from("/x")).is_some());
    cache.sweep(1_000 + TTL + 1);
    assert!(cache.get_page(&String::from("/x")).is_none());
}

#[test]
fn skip_cache_always_reads_store() {
    let mut store = MockStore::new();
    let mut cache = Cache::new(TTL);
    let mut calls: u32 = 0;
    let t = 1_000;

    run(
        &mut store,
        &mut cache,
        DatabaseMpscCommand::NewPage(page("/x", "v1")),
        t,
        &mut calls,
    );
    assert_eq!(calls, 1);

    let r = run(
        &mut store,
        &mut cache,
        DatabaseMpscCommand::GetPage(String::from("/x"), true),
        t + 1,
        &mut calls,
    );
    assert!(matches!(r, Outcome::PageFound(_)));
    assert_eq!(calls, 2);

    // The forced refresh warmed the cache: the next plain read is a hit.
    let r = run(
        &mut store,
        &mut cache,
        DatabaseMpscCommand::GetPage(String::from("/x"), false),
        t + 2,
        &mut calls,
    );
    assert!(matches!(r, Outcome::PageFound(_)));
    assert_eq!(calls, 2);
}

#[test]
fn new_set_get_round_trip_reads_latest_value() {
    let mut store = MockStore::new();
    let mut cache = Cache::new(TTL);
    let mut calls: u32 = 0;
    let t = 1_000;

    let r = run(
        &mut store,
        &mut cache,
        DatabaseMpscCommand::NewPage(page("/x", "v1")),
        t,
        &mut calls,
    );
    assert!(matches!(r, Outcome::Done));

    let r = run(
        &mut store,
        &mut cache,
        DatabaseMpscCommand::GetPage(String::from("/x"), false),
        t + 1,
        &mut calls,
    );
    match r {
        Outcome::PageFound(p) => assert_eq!(p.body, "v1"),
        _ => panic!("expected body v1"),
    }

    let r = run(
        &mut store,
        &mut cache,
        DatabaseMpscCommand::SetPage(page("/x", "v2")),
        t + 2,
        &mut calls,
    );
    assert!(matches!(r, Outcome::Done));

    let r = run(
        &mut store,
        &mut cache,
        DatabaseMpscCommand::GetPage(String::from("/x"), false),
        t + 3,
        &mut calls,
    );
    match r {
        Outcome::PageFound(p) => assert_eq!(p.body, "v2"),
        _ => panic!("expected body v2"),
    }
}

#[test]
fn delete_evicts_and_both_read_paths_report_not_found() {
    let mut store = MockStore::new();
    let mut cache = Cache::new(TTL);
    let mut calls: u32 = 0;
    let t = 1_000;

    run(
        &mut store,
        &mut cache,
        DatabaseMpscCommand::NewPage(page("/x", "v1")),
        t,
        &mut calls,
    );

    let r = run(
        &mut store,
        &mut cache,
        DatabaseMpscCommand::DeletePage(String::from("/x")),
        t + 1,
        &mut calls,
    );
    assert!(matches!(r, Outcome::Done));

    let r = run(
        &mut store,
        &mut cache,
        DatabaseMpscCommand::GetPage(String::from("/x"), true),
        t + 2,
        &mut calls,
    );
    assert!(matches!(r, Outcome::Failed(DataError::NotFound)));

    let r = run(
        &mut store,
        &mut cache,
        DatabaseMpscCommand::GetPage(String::from("/x"), false),
        t + 3,
        &mut calls,
    );
    assert!(matches!(r, Outcome::Failed(DataError::NotFound)));
}

#[test]
fn create_on_existing_key_is_a_conflict() {
    let mut store = MockStore::new();
    let mut cache = Cache::new(TTL);
    let mut calls: u32 = 0;

    run(
        &mut store,
        &mut cache,
        DatabaseMpscCommand::NewPage(page("/x", "v1")),
        1_000,
        &mut calls,
    );
    let r = run(
        &mut store,
        &mut cache,
        DatabaseMpscCommand::NewPage(page("/x", "other")),
        1_001,
        &mut calls,
    );
    assert!(matches!(r, Outcome::Failed(DataError::Conflict)));

    // The failed create left the cache as it was: the old body is served.
    let r = run(
        &mut store,
        &mut cache,
        DatabaseMpscCommand::GetPage(String::from("/x"), false),
        1_002,
        &mut calls,
    );
    match r {
        Outcome::PageFound(p) => assert_eq!(p.body, "v1"),
        _ => panic!("expected body v1"),
    }
}

#[test]
fn failed_read_is_not_cached() {
    let mut store = MockStore::new();
    let mut cache = Cache::new(TTL);
    let mut calls: u32 = 0;

    let r = run(
        &mut store,
        &mut cache,
        DatabaseMpscCommand::GetPage(String::from("/missing"), false),
        1_000,
        &mut calls,
    );
    assert!(matches!(r, Outcome::Failed(DataError::NotFound)));
    assert_eq!(calls, 1);

    // The miss was not cached negatively: the next read asks the store
    // again.
    let r = run(
        &mut store,
        &mut cache,
        DatabaseMpscCommand::GetPage(String::from("/missing"), false),
        1_001,
        &mut calls,
    );
    assert!(matches!(r, Outcome::Failed(DataError::NotFound)));
    assert_eq!(calls, 2);
}

#[test]
fn store_unavailable_passes_through_and_leaves_cache_untouched() {
    let mut cache = Cache::new(TTL);
    cache.set_page_at(&page("/x", "v1"), 1_000);

    let cmd = DatabaseMpscCommand::SetPage(page("/x", "v2"));
    let r = settle(
        &cmd,
        Outcome::Failed(DataError::StoreUnavailable),
        &mut cache,
        1_001,
    );
    assert!(matches!(r, Outcome::Failed(DataError::StoreUnavailable)));

    let p = cache.get_page(&String::from("/x")).expect("still cached");
    assert_eq!(p.body, "v1");
}

#[test]
fn user_commands_round_trip() {
    let mut store = MockStore::new();
    let mut cache = Cache::new(TTL);
    let mut calls: u32 = 0;
    let t = 1_000;

    let r = run(
        &mut store,
        &mut cache,
        DatabaseMpscCommand::NewUser(user(42, "root")),
        t,
        &mut calls,
    );
    assert!(matches!(r, Outcome::Done));

    let r = run(
        &mut store,
        &mut cache,
        DatabaseMpscCommand::GetUser(42, false),
        t + 1,
        &mut calls,
    );
    match r {
        Outcome::UserFound(u) => assert_eq!(u.username, "root"),
        _ => panic!("expected the user"),
    }
    assert_eq!(calls, 1);

    let r = run(
        &mut store,
        &mut cache,
        DatabaseMpscCommand::DeleteUser(42),
        t + 2,
        &mut calls,
    );
    assert!(matches!(r, Outcome::Done));

    let r = run(
        &mut store,
        &mut cache,
        DatabaseMpscCommand::GetUser(42, false),
        t + 3,
        &mut calls,
    );
    assert!(matches!(r, Outcome::Failed(DataError::NotFound)));
}

#[test]
fn distinct_keys_do_not_disturb_each_other() {
    let mut store = MockStore::new();
    let mut cache = Cache::new(TTL);
    let mut calls: u32 = 0;

    run(
        &mut store,
        &mut cache,
        DatabaseMpscCommand::NewPage(page("/a", "alpha")),
        1_000,
        &mut calls,
    );
    run(
        &mut store,
        &mut cache,
        DatabaseMpscCommand::NewPage(page("/b", "beta")),
        1_001,
        &mut calls,
    );
    assert_eq!(calls, 2);

    // Both writes landed in full: each key serves its own value from the
    // cache, with no further store call.
    let ra = run(
        &mut store,
        &mut cache,
        DatabaseMpscCommand::GetPage(String::from("/a"), false),
        1_002,
        &mut calls,
    );
    let rb = run(
        &mut store,
        &mut cache,
        DatabaseMpscCommand::GetPage(String::from("/b"), false),
        1_003,
        &mut calls,
    );
    match (ra, rb) {
        (Outcome::PageFound(a), Outcome::PageFound(b)) => {
            assert_eq!(a.body, "alpha");
            assert_eq!(b.body, "beta");
        }
        _ => panic!("expected both pages"),
    }
    assert_eq!(calls, 2);
}

#[test]
fn outcomes_resolve_to_the_callers_results() {
    let p = page("/x", "v1");
    assert_eq!(
        Outcome::PageFound(p.clone()).into_page_result().unwrap().body,
        "v1"
    );
    assert_eq!(
        Outcome::Failed(DataError::NotFound)
            .into_page_result()
            .unwrap_err(),
        DataError::NotFound
    );
    assert_eq!(
        Outcome::Done.into_page_result().unwrap_err(),
        DataError::ReplyLost
    );

    let u = user(42, "root");
    assert_eq!(
        Outcome::UserFound(u.clone()).into_user_result().unwrap().id,
        42
    );
    assert_eq!(
        Outcome::PageFound(p).into_user_result().unwrap_err(),
        DataError::ReplyLost
    );

    assert_eq!(Outcome::Done.into_unit_result(), Ok(()));
    assert_eq!(
        Outcome::Failed(DataError::Conflict).into_unit_result(),
        Err(DataError::Conflict)
    );
    assert_eq!(
        Outcome::UserFound(u).into_unit_result().unwrap_err(),
        DataError::ReplyLost
    );
}

#[test]
fn set_page_with_wall_clock_caches_the_value() {
    let mut cache = Cache::new(TTL);
    cache.set_page(&page("/x", "v1"));
    let p = cache.get_page(&String::from("/x")).expect("cached");
    assert_eq!(p.body, "v1");

    let mut cache = Cache::new(TTL);
    cache.set_user(&user(42, "root"));
    let u = cache.get_user(42).expect("cached");
    assert_eq!(u.username, "root");
}
