//! Whole coordinator invocations: cache-hit short circuit, retry bound,
//! slot serialization, and the notification that follows a success.

use tsukimi::channel::NotifyChannel;
use tsukimi::coordinator::{
    plan_display, run_fetch, take_notification, Completion, DisplayPlan, FetchOutcome, FetchSlot,
    FetchTask,
};
use tsukimi::key::{ResourceKey, ResourceKind};
use tsukimi::store::CacheStore;

fn key(kind: ResourceKind, id: &str) -> ResourceKey {
    ResourceKey::new(kind, String::from(id))
}

#[test]
fn fails_twice_then_succeeds_caches_and_notifies_once() {
    let mut store = CacheStore::new(String::from("root"));
    let mut slot = FetchSlot::new();
    let mut chan = NotifyChannel::new();
    let k = key(ResourceKind::Primary, "abc123");
    let bytes = vec![0xFFu8, 0xD8, 0xFF, 0xE0];
    let task = match plan_display(&store, k) {
        DisplayPlan::NeedsFetch(t) => t,
        DisplayPlan::AlreadyCached(_) => panic!("cache was empty"),
    };
    let outcomes = vec![
        FetchOutcome::Failure,
        FetchOutcome::Failure,
        FetchOutcome::Success(bytes.clone()),
    ];
    let done = run_fetch(task, &mut slot, &mut store, &mut chan, outcomes);
    assert_eq!(done.completion(), Some(Completion::Cached));
    assert_eq!(done.calls(), 3);
    let k = key(ResourceKind::Primary, "abc123");
    assert!(store.contains(&k));
    assert_eq!(store.read(&k), Some(bytes));
    assert_eq!(store.path_for(&k), "root/abc123.png");
    // The notification fires exactly once, with the identifier.
    assert_eq!(chan.try_recv(), Some(String::from("abc123")));
    assert_eq!(chan.try_recv(), None);
}

#[test]
fn always_failing_fetcher_is_called_exactly_three_times() {
    let mut store = CacheStore::new(String::from("root"));
    let mut slot = FetchSlot::new();
    let mut chan = NotifyChannel::new();
    let k = key(ResourceKind::Thumb, "xyz");
    let task = FetchTask::new(k);
    let outcomes = vec![
        FetchOutcome::Failure,
        FetchOutcome::Failure,
        FetchOutcome::Failure,
        FetchOutcome::Failure,
    ];
    let done = run_fetch(task, &mut slot, &mut store, &mut chan, outcomes);
    assert_eq!(done.completion(), Some(Completion::Exhausted));
    assert_eq!(done.calls(), 3);
    // No file was created and nobody was notified.
    let k = key(ResourceKind::Thumb, "xyz");
    assert!(!store.contains(&k));
    assert!(!store.is_root_present());
    assert_eq!(chan.try_recv(), None);
}

#[test]
fn immediate_success_makes_one_call() {
    let mut store = CacheStore::new(String::from("root"));
    let mut slot = FetchSlot::new();
    let mut chan = NotifyChannel::new();
    let task = FetchTask::new(key(ResourceKind::Logo, "q"));
    let outcomes = vec![
        FetchOutcome::Success(vec![7u8]),
        FetchOutcome::Failure,
        FetchOutcome::Failure,
    ];
    let done = run_fetch(task, &mut slot, &mut store, &mut chan, outcomes);
    assert_eq!(done.completion(), Some(Completion::Cached));
    assert_eq!(done.calls(), 1);
    assert_eq!(chan.try_recv(), Some(String::from("q")));
}

#[test]
fn cache_hit_short_circuits_and_never_fetches() {
    let mut store = CacheStore::new(String::from("root"));
    let k = key(ResourceKind::Primary, "hit");
    store.write(&k, &vec![5u8]);
    match plan_display(&store, key(ResourceKind::Primary, "hit")) {
        DisplayPlan::AlreadyCached(path) => {
            assert_eq!(path, "root/hit.png");
        },
        DisplayPlan::NeedsFetch(_) => panic!("a cached key must not spawn a fetch"),
    }
}

#[test]
fn second_task_cannot_begin_while_slot_is_held() {
    let mut slot = FetchSlot::new();
    let mut t1 = FetchTask::new(key(ResourceKind::Primary, "one"));
    let mut t2 = FetchTask::new(key(ResourceKind::Primary, "one"));
    assert!(t1.begin(&mut slot));
    // The slot is held: the second fetch does not begin its network call.
    assert!(!t2.begin(&mut slot));
    assert!(!t2.is_fetching());
    // The first invocation finishes and releases the slot; a fresh task for
    // the same element may then proceed.
    let mut store = CacheStore::new(String::from("root"));
    let mut chan = NotifyChannel::new();
    t1.on_fetch_result(&mut slot, &mut store, &mut chan, FetchOutcome::Success(vec![1u8]));
    let mut t3 = FetchTask::new(key(ResourceKind::Primary, "one"));
    assert!(t3.begin(&mut slot));
}

#[test]
fn channel_holds_one_message_at_a_time() {
    let mut chan = NotifyChannel::new();
    assert_eq!(chan.try_recv(), None);
    assert!(chan.try_send(&String::from("a")));
    // The single slot is taken: a second send is refused.
    assert!(!chan.try_send(&String::from("b")));
    assert_eq!(chan.try_recv(), Some(String::from("a")));
    assert_eq!(chan.try_recv(), None);
    // Once drained it can carry again.
    assert!(chan.try_send(&String::from("c")));
    assert_eq!(chan.try_recv(), Some(String::from("c")));
}

#[test]
fn consumer_re_derives_the_path_from_the_notification() {
    let mut store = CacheStore::new(String::from("root"));
    let mut slot = FetchSlot::new();
    let mut chan = NotifyChannel::new();
    let task = FetchTask::new(key(ResourceKind::Backdrop, "bk"));
    let outcomes = vec![
        FetchOutcome::Success(vec![3u8]),
        FetchOutcome::Failure,
        FetchOutcome::Failure,
    ];
    run_fetch(task, &mut slot, &mut store, &mut chan, outcomes);
    let path = take_notification(&mut chan, &store, ResourceKind::Backdrop);
    assert_eq!(path, Some(String::from("root/bbk.png")));
    // The single message is gone afterwards.
    assert_eq!(take_notification(&mut chan, &store, ResourceKind::Backdrop), None);
}
