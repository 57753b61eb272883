use mockem::{clear_mocks, MockReturn, MockStore};

type Behavior = fn(&str) -> String;

const GREET: u64 = 7;
const SHOUT: u64 = 8;

fn hi(_: &str) -> String {
    "Hi!".to_owned()
}

fn one(_: &str) -> String {
    "one".to_owned()
}

fn two(_: &str) -> String {
    "two".to_owned()
}

fn three(_: &str) -> String {
    "three".to_owned()
}

fn mocked(name: &str) -> String {
    format!("mocked {name}")
}

// One call of an instrumented callable with identity `id` and real body
// `body`.
fn call(store: &mut MockStore<u64, Behavior>, id: u64, name: &str, body: Behavior) -> String {
    if store.mock_exists(id) {
        let entry = store.get(id).expect("mock should exist");
        let r = (entry.0)(name);
        store.requeue(id, entry);
        return r;
    }
    body(name)
}

fn greet_body(name: &str) -> String {
    format!("Hello, {name}!")
}

fn shout_body(name: &str) -> String {
    name.to_uppercase()
}

fn greet(store: &mut MockStore<u64, Behavior>, name: &str) -> String {
    call(store, GREET, name, greet_body)
}

fn shout(store: &mut MockStore<u64, Behavior>, name: &str) -> String {
    call(store, SHOUT, name, shout_body)
}

#[test]
fn greet_end_to_end() {
    let mut store: MockStore<u64, Behavior> = MockStore::new();
    store.add(GREET, MockReturn(hi, Some(1)));
    assert_eq!(greet(&mut store, "Ann"), "Hi!");
    assert_eq!(greet(&mut store, "Ann"), "Hello, Ann!");
}

#[test]
fn fifo_ordering() {
    let mut store: MockStore<u64, Behavior> = MockStore::new();
    store.add(GREET, MockReturn(one, Some(1)));
    store.add(GREET, MockReturn(two, Some(1)));
    store.add(GREET, MockReturn(three, Some(1)));
    assert_eq!(greet(&mut store, "Ann"), "one");
    assert_eq!(greet(&mut store, "Ann"), "two");
    assert_eq!(greet(&mut store, "Ann"), "three");
    assert_eq!(greet(&mut store, "Ann"), "Hello, Ann!");
}

#[test]
fn finite_repeat_accounting() {
    let mut store: MockStore<u64, Behavior> = MockStore::new();
    store.add(GREET, MockReturn(mocked, Some(3)));
    assert_eq!(greet(&mut store, "a"), "mocked a");
    assert_eq!(greet(&mut store, "b"), "mocked b");
    assert!(store.mock_exists(GREET));
    assert_eq!(greet(&mut store, "c"), "mocked c");
    assert!(!store.mock_exists(GREET));
    assert_eq!(greet(&mut store, "d"), "Hello, d!");
    assert!(store.get(GREET).is_none());
}

#[test]
fn unlimited_persistence() {
    let mut store: MockStore<u64, Behavior> = MockStore::new();
    store.add(GREET, MockReturn(mocked, None));
    for _ in 0..10 {
        assert_eq!(greet(&mut store, "bar"), "mocked bar");
    }
    store.remove(GREET);
    assert_eq!(greet(&mut store, "baz"), "Hello, baz!");
}

#[test]
fn self_refilling() {
    let mut store: MockStore<u64, Behavior> = MockStore::new();
    store.add(GREET, MockReturn(mocked, Some(1)));
    for _ in 0..5 {
        assert!(store.mock_exists(GREET));
        let entry = store.get(GREET).expect("mock should exist");
        // the override queues itself once more while it runs
        store.add(GREET, MockReturn(entry.0, Some(1)));
        assert_eq!((entry.0)("x"), "mocked x");
        store.requeue(GREET, entry);
    }
    assert!(store.mock_exists(GREET));
    store.remove(GREET);
    assert_eq!(greet(&mut store, "x"), "Hello, x!");
}

#[test]
fn added_while_running_goes_after_queued_entries() {
    let mut store: MockStore<u64, Behavior> = MockStore::new();
    store.add(GREET, MockReturn(one, Some(2)));
    store.add(GREET, MockReturn(two, Some(1)));
    let entry = store.get(GREET).expect("mock should exist");
    store.add(GREET, MockReturn(three, Some(1)));
    assert_eq!((entry.0)("x"), "one");
    store.requeue(GREET, entry);
    assert_eq!(greet(&mut store, "x"), "two");
    assert_eq!(greet(&mut store, "x"), "three");
    assert_eq!(greet(&mut store, "x"), "one");
    assert_eq!(greet(&mut store, "x"), "Hello, x!");
}

#[test]
fn isolation() {
    let mut store: MockStore<u64, Behavior> = MockStore::new();
    store.add(GREET, MockReturn(hi, None));
    assert_eq!(shout(&mut store, "ann"), "ANN");
    assert_eq!(greet(&mut store, "ann"), "Hi!");
    store.add(SHOUT, MockReturn(one, Some(1)));
    store.remove(GREET);
    assert_eq!(shout(&mut store, "ann"), "one");
    assert_eq!(greet(&mut store, "ann"), "Hello, ann!");
}

#[test]
fn fallback_transparency() {
    let mut store: MockStore<u64, Behavior> = MockStore::new();
    for name in ["", "Ann", "Bob"] {
        assert_eq!(greet(&mut store, name), greet_body(name));
        assert_eq!(shout(&mut store, name), shout_body(name));
    }
    assert!(!store.mock_exists(GREET));
    assert!(store.get(SHOUT).is_none());
}

#[test]
fn clear_mocks_drops_every_queue() {
    let mut store: MockStore<u64, Behavior> = MockStore::new();
    store.add(GREET, MockReturn(hi, None));
    store.add(SHOUT, MockReturn(one, Some(4)));
    clear_mocks(&mut store);
    assert!(!store.mock_exists(GREET));
    assert!(!store.mock_exists(SHOUT));
    assert_eq!(greet(&mut store, "Ann"), "Hello, Ann!");
}

#[test]
fn get_takes_the_head_and_counts_are_untouched() {
    let mut store: MockStore<u64, Behavior> = MockStore::new();
    assert!(store.get(GREET).is_none());
    store.add(GREET, MockReturn(one, Some(5)));
    store.add(GREET, MockReturn(two, None));
    let first = store.get(GREET).expect("queued");
    assert_eq!(first.1, Some(5));
    assert_eq!((first.0)(""), "one");
    let second = store.get(GREET).expect("queued");
    assert_eq!(second.1, None);
    assert!(store.get(GREET).is_none());
}

#[test]
fn requeue_counts_down() {
    let mut store: MockStore<u64, Behavior> = MockStore::new();
    store.requeue(GREET, MockReturn(one, Some(2)));
    let e = store.get(GREET).expect("one use left");
    assert_eq!(e.1, Some(1));
    store.requeue(GREET, e);
    assert!(!store.mock_exists(GREET));
    store.requeue(GREET, MockReturn(two, None));
    let e = store.get(GREET).expect("unlimited");
    assert_eq!(e.1, None);
}

#[test]
fn requeue_largest_count() {
    let mut store: MockStore<u64, Behavior> = MockStore::new();
    store.requeue(GREET, MockReturn(one, Some(usize::MAX)));
    let e = store.get(GREET).expect("uses left");
    assert_eq!(e.1, Some(usize::MAX - 1));
}

#[test]
fn zero_count_entry_serves_one_call() {
    let mut store: MockStore<u64, Behavior> = MockStore::new();
    store.add(GREET, MockReturn(one, Some(0)));
    assert_eq!(greet(&mut store, "Ann"), "one");
    assert_eq!(greet(&mut store, "Ann"), "Hello, Ann!");
}

#[test]
fn remove_and_clear_on_empty_store() {
    let mut store: MockStore<u64, Behavior> = MockStore::new();
    store.remove(GREET);
    store.clear();
    assert!(!store.mock_exists(GREET));
    store.add(GREET, MockReturn(one, Some(1)));
    store.remove(SHOUT);
    assert!(store.mock_exists(GREET));
}
