use tracker::error::TrackerError;
use tracker::store::TaskStore;
use tracker::task::Task;
use tracker::timestamp::Timestamp;

fn at(secs: i64) -> Timestamp {
    Timestamp { secs, nanos: 0 }
}

fn task(id: u64, description: &str, secs: i64, done: bool) -> Task {
    Task { id, description: description.to_string(), created_at: at(secs), done }
}

#[test]
fn new_store_is_empty() {
    let store = TaskStore::new();
    assert_eq!(store.len(), 0);
    assert!(store.list_all().is_empty());
}

#[test]
fn initialize_creates_an_empty_store() {
    let store = TaskStore::initialize(None);
    assert_eq!(store.len(), 0);
}

#[test]
fn initialize_twice_keeps_the_tasks() {
    let mut store = TaskStore::initialize(None);
    store.insert("buy milk".to_string(), at(10)).unwrap();
    let once = TaskStore::initialize(Some(store));
    let first = once.list_all();
    let twice = TaskStore::initialize(Some(once));
    assert_eq!(twice.list_all(), first);
    assert_eq!(twice.len(), 1);
}

#[test]
fn insert_assigns_ids_from_one_upwards() {
    let mut store = TaskStore::new();
    let a = store.insert("a".to_string(), at(1)).unwrap();
    let b = store.insert("b".to_string(), at(2)).unwrap();
    let c = store.insert("c".to_string(), at(3)).unwrap();
    assert_eq!(a, task(1, "a", 1, false));
    assert_eq!(b, task(2, "b", 2, false));
    assert_eq!(c, task(3, "c", 3, false));
    assert_eq!(store.len(), 3);
}

#[test]
fn insert_rejects_an_empty_description() {
    let mut store = TaskStore::new();
    store.insert("a".to_string(), at(1)).unwrap();
    assert_eq!(store.insert(String::new(), at(2)), Err(TrackerError::Usage));
    assert_eq!(store.list_all(), vec![task(1, "a", 1, false)]);
}

#[test]
fn insert_fails_when_ids_run_out() {
    let mut store = TaskStore::from_tasks(vec![task(u64::MAX, "last", 1, false)]).unwrap();
    assert_eq!(store.insert("more".to_string(), at(2)), Err(TrackerError::StorageWriteFailure));
    assert_eq!(store.list_all(), vec![task(u64::MAX, "last", 1, false)]);
}

#[test]
fn insert_continues_after_the_last_id() {
    let mut store =
        TaskStore::from_tasks(vec![task(3, "a", 1, false), task(7, "b", 2, true)]).unwrap();
    let added = store.insert("c".to_string(), at(3)).unwrap();
    assert_eq!(added.id, 8);
}

#[test]
fn list_all_keeps_insertion_order() {
    let mut store = TaskStore::new();
    store.insert("zebra".to_string(), at(30)).unwrap();
    store.insert("apple".to_string(), at(10)).unwrap();
    store.insert("mango".to_string(), at(20)).unwrap();
    store.mark_done(2).unwrap();
    assert_eq!(
        store.list_all(),
        vec![task(1, "zebra", 30, false), task(2, "apple", 10, true), task(3, "mango", 20, false)]
    );
}

#[test]
fn mark_done_flips_only_that_task() {
    let mut store = TaskStore::new();
    store.insert("a".to_string(), at(1)).unwrap();
    store.insert("b".to_string(), at(2)).unwrap();
    store.insert("c".to_string(), at(3)).unwrap();
    assert_eq!(store.mark_done(2), Ok(()));
    assert_eq!(
        store.list_all(),
        vec![task(1, "a", 1, false), task(2, "b", 2, true), task(3, "c", 3, false)]
    );
}

#[test]
fn mark_done_twice_is_the_same_as_once() {
    let mut store = TaskStore::new();
    store.insert("a".to_string(), at(1)).unwrap();
    store.insert("b".to_string(), at(2)).unwrap();
    assert_eq!(store.mark_done(1), Ok(()));
    let once = store.list_all();
    assert_eq!(store.mark_done(1), Ok(()));
    assert_eq!(store.list_all(), once);
    assert_eq!(once, vec![task(1, "a", 1, true), task(2, "b", 2, false)]);
}

#[test]
fn mark_done_on_a_missing_id_changes_nothing() {
    let mut store = TaskStore::new();
    store.insert("a".to_string(), at(1)).unwrap();
    assert_eq!(store.mark_done(99), Err(TrackerError::NotFound));
    assert_eq!(store.mark_done(0), Err(TrackerError::NotFound));
    assert_eq!(store.list_all(), vec![task(1, "a", 1, false)]);
}

#[test]
fn mark_done_on_an_empty_store_is_not_found() {
    let mut store = TaskStore::new();
    assert_eq!(store.mark_done(1), Err(TrackerError::NotFound));
    assert_eq!(store.len(), 0);
}

#[test]
fn from_tasks_accepts_growing_ids() {
    let store = TaskStore::from_tasks(vec![task(2, "a", 1, true), task(5, "b", 2, false)]).unwrap();
    assert_eq!(store.list_all(), vec![task(2, "a", 1, true), task(5, "b", 2, false)]);
}

#[test]
fn from_tasks_rejects_repeated_ids() {
    let r = TaskStore::from_tasks(vec![task(1, "a", 1, false), task(1, "b", 2, false)]);
    assert_eq!(r.err(), Some(TrackerError::CorruptRecord));
}

#[test]
fn from_tasks_rejects_ids_out_of_order() {
    let r = TaskStore::from_tasks(vec![task(2, "a", 1, false), task(1, "b", 2, false)]);
    assert_eq!(r.err(), Some(TrackerError::CorruptRecord));
}

#[test]
fn from_tasks_rejects_id_zero() {
    let r = TaskStore::from_tasks(vec![task(0, "a", 1, false)]);
    assert_eq!(r.err(), Some(TrackerError::CorruptRecord));
}

#[test]
fn task_clone_keeps_every_field() {
    let t = task(4, "water plants", 77, true);
    assert_eq!(t.clone(), t);
}

#[test]
fn insert_now_stamps_the_task() {
    let before = Timestamp::now();
    let mut store = TaskStore::new();
    let added = store.insert_now("buy milk".to_string()).unwrap();
    let after = Timestamp::now();
    assert_eq!(added.id, 1);
    assert_eq!(added.description, "buy milk");
    assert!(!added.done);
    assert!(before.secs <= added.created_at.secs && added.created_at.secs <= after.secs);
    assert_eq!(store.list_all(), vec![added]);
    assert_eq!(store.insert_now(String::new()), Err(TrackerError::Usage));
    assert_eq!(store.len(), 1);
}
