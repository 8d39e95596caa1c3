//! Whole retrievals against a store in memory, with JSON as the encoding.
use cache_resolver::{Action, CacheResolverError, Event, Retrieval};
use std::cell::Cell;
use std::collections::{BTreeMap, HashMap};

/// The values of these tests: a record such as `{n: 1}`.
type Record = BTreeMap<String, u64>;

fn record(n: u64) -> Record {
    let mut record = Record::new();
    record.insert("n".to_string(), n);
    record
}

/// A store in memory that can be cut off.
struct Store {
    entries: HashMap<String, Vec<u8>>,
    lookups_fail: bool,
    writes_fail: bool,
}

impl Store {
    fn reachable() -> Store {
        Store { entries: HashMap::new(), lookups_fail: false, writes_fail: false }
    }

    fn unreachable() -> Store {
        Store { entries: HashMap::new(), lookups_fail: true, writes_fail: true }
    }
}

/// A resolver that answers `answer` and counts how often it is asked.
struct Resolver {
    answer: Result<Record, String>,
    calls: Cell<usize>,
}

impl Resolver {
    fn answering(record: Record) -> Resolver {
        Resolver { answer: Ok(record), calls: Cell::new(0) }
    }

    fn failing(cause: &str) -> Resolver {
        Resolver { answer: Err(cause.to_string()), calls: Cell::new(0) }
    }

    fn ask(&self) -> Result<Record, CacheResolverError> {
        self.calls.set(self.calls.get() + 1);
        match &self.answer {
            Ok(record) => Ok(record.clone()),
            Err(cause) => Err(CacheResolverError::ResolverFailed { cause: cause.clone() }),
        }
    }
}

/// Performs `action` as a faithful driver does; `Err` holds the outcome once the
/// retrieval is over.
fn perform(
    store: &mut Store,
    resolver: &Resolver,
    retrieval: &Retrieval<Record>,
    action: Action<Record>,
) -> Result<Event<Record>, Result<Record, CacheResolverError>> {
    match action {
        Action::Lookup { address } => {
            if store.lookups_fail {
                Ok(Event::LookupFailed)
            } else {
                Ok(Event::Looked { entry: store.entries.get(&address).cloned() })
            }
        }
        Action::Decode { entry } => {
            Ok(Event::Decoded { value: serde_json::from_slice(&entry).ok() })
        }
        Action::Resolve => Ok(Event::Resolved { outcome: resolver.ask() }),
        Action::Encode => {
            let value = retrieval.value().expect("a value is kept while it is encoded");
            let encoding = serde_json::to_vec(value).map_err(|e| e.to_string());
            Ok(Event::Encoded { encoding })
        }
        Action::Store { address, entry } => {
            if store.writes_fail {
                Ok(Event::Written { acknowledged: false })
            } else {
                store.entries.insert(address, entry);
                Ok(Event::Written { acknowledged: true })
            }
        }
        Action::Return { outcome } => Err(outcome),
    }
}

fn retrieve(
    store: &mut Store,
    resolver: &Resolver,
    key: &str,
) -> Result<Record, CacheResolverError> {
    let (mut retrieval, mut action) = Retrieval::begin(key.to_string());
    loop {
        match perform(store, resolver, &retrieval, action) {
            Ok(event) => action = retrieval.step(event).expect("the event answers the action"),
            Err(outcome) => return outcome,
        }
    }
}

#[test]
fn first_retrieval_resolves_and_stores_second_is_served_from_the_store() {
    let mut store = Store::reachable();
    let resolver = Resolver::answering(record(1));

    assert_eq!(retrieve(&mut store, &resolver, "a"), Ok(record(1)));
    assert_eq!(resolver.calls.get(), 1);
    assert_eq!(store.entries.get("a"), Some(&b"{\"n\":1}".to_vec()));
    assert_eq!(store.entries.len(), 1);

    assert_eq!(retrieve(&mut store, &resolver, "a"), Ok(record(1)));
    assert_eq!(resolver.calls.get(), 1);
    assert_eq!(store.entries.get("a"), Some(&b"{\"n\":1}".to_vec()));
}

#[test]
fn stored_entry_is_returned_without_the_resolver() {
    let mut store = Store::reachable();
    store.entries.insert("a".to_string(), b"{\"n\":5}".to_vec());
    let resolver = Resolver::answering(record(1));

    assert_eq!(retrieve(&mut store, &resolver, "a"), Ok(record(5)));
    assert_eq!(resolver.calls.get(), 0);
    assert_eq!(store.entries.get("a"), Some(&b"{\"n\":5}".to_vec()));
}

#[test]
fn each_key_has_its_own_entry() {
    let mut store = Store::reachable();
    assert_eq!(retrieve(&mut store, &Resolver::answering(record(1)), "a"), Ok(record(1)));
    assert_eq!(retrieve(&mut store, &Resolver::answering(record(2)), "b"), Ok(record(2)));
    assert_eq!(store.entries.get("a"), Some(&b"{\"n\":1}".to_vec()));
    assert_eq!(store.entries.get("b"), Some(&b"{\"n\":2}".to_vec()));
}

#[test]
fn encoded_values_decode_to_themselves() {
    let mut large = record(u64::MAX);
    large.insert("quoted \"name\"".to_string(), 0);
    for value in [Record::new(), record(0), record(1), large] {
        let entry = serde_json::to_vec(&value).expect("a record has an encoding");
        let decoded: Record = serde_json::from_slice(&entry).expect("an encoding decodes");
        assert_eq!(decoded, value);
    }
}

#[test]
fn unreachable_store_still_yields_the_resolved_value() {
    let mut store = Store::unreachable();
    let resolver = Resolver::answering(record(3));

    assert_eq!(retrieve(&mut store, &resolver, "a"), Ok(record(3)));
    assert_eq!(retrieve(&mut store, &resolver, "a"), Ok(record(3)));
    assert_eq!(resolver.calls.get(), 2);
    assert!(store.entries.is_empty());
}

#[test]
fn failed_write_still_yields_the_resolved_value() {
    let mut store = Store::reachable();
    store.writes_fail = true;
    let resolver = Resolver::answering(record(4));

    assert_eq!(retrieve(&mut store, &resolver, "a"), Ok(record(4)));
    assert_eq!(resolver.calls.get(), 1);
    assert!(store.entries.is_empty());
}

#[test]
fn failed_lookup_resolves_and_overwrites() {
    let mut store = Store::reachable();
    store.lookups_fail = true;
    store.entries.insert("a".to_string(), b"{\"n\":5}".to_vec());
    let resolver = Resolver::answering(record(6));

    assert_eq!(retrieve(&mut store, &resolver, "a"), Ok(record(6)));
    assert_eq!(resolver.calls.get(), 1);
    assert_eq!(store.entries.get("a"), Some(&b"{\"n\":6}".to_vec()));
}

#[test]
fn corrupted_entry_is_resolved_again_and_overwritten() {
    let mut store = Store::reachable();
    store.entries.insert("a".to_string(), b"{\"n\":".to_vec());
    let resolver = Resolver::answering(record(1));

    assert_eq!(retrieve(&mut store, &resolver, "a"), Ok(record(1)));
    assert_eq!(resolver.calls.get(), 1);
    assert_eq!(store.entries.get("a"), Some(&b"{\"n\":1}".to_vec()));
}

#[test]
fn empty_entry_counts_as_corrupted() {
    let mut store = Store::reachable();
    store.entries.insert("a".to_string(), Vec::new());
    let resolver = Resolver::answering(record(1));

    assert_eq!(retrieve(&mut store, &resolver, "a"), Ok(record(1)));
    assert_eq!(resolver.calls.get(), 1);
}

#[test]
fn resolver_failure_fails_the_retrieval_and_stores_nothing() {
    let mut store = Store::reachable();
    let resolver = Resolver::failing("no plan for this query");

    assert_eq!(
        retrieve(&mut store, &resolver, "a"),
        Err(CacheResolverError::ResolverFailed { cause: "no plan for this query".to_string() })
    );
    assert_eq!(resolver.calls.get(), 1);
    assert!(store.entries.is_empty());
}

#[test]
fn resolver_failure_with_unreachable_store_names_the_resolver() {
    let mut store = Store::unreachable();
    let resolver = Resolver::failing("timeout");

    assert_eq!(
        retrieve(&mut store, &resolver, "a"),
        Err(CacheResolverError::ResolverFailed { cause: "timeout".to_string() })
    );
}

#[test]
fn value_that_json_cannot_encode_is_an_encoding_failure() {
    // JSON has no encoding for a map keyed by pairs.
    let mut value: BTreeMap<(u8, u8), u8> = BTreeMap::new();
    value.insert((1, 2), 3);

    let (mut retrieval, first) = Retrieval::begin("a".to_string());
    assert_eq!(first, Action::Lookup { address: "a".to_string() });
    assert_eq!(retrieval.step(Event::Looked { entry: None }), Some(Action::Resolve));
    assert_eq!(retrieval.step(Event::Resolved { outcome: Ok(value) }), Some(Action::Encode));
    let encoding = serde_json::to_vec(retrieval.value().expect("the value is kept"))
        .map_err(|e| e.to_string());
    assert_eq!(encoding, Err("key must be a string".to_string()));
    assert_eq!(
        retrieval.step(Event::Encoded { encoding }),
        Some(Action::Return {
            outcome: Err(CacheResolverError::EncodingFailed {
                cause: "key must be a string".to_string()
            })
        })
    );
}

/// Runs `callers` retrievals of `key` together, taking their turns from
/// `schedule` over and over until all are over, and returns their outcomes.
fn retrieve_together(
    store: &mut Store,
    resolver: &Resolver,
    key: &str,
    callers: usize,
    schedule: &[usize],
) -> Vec<Result<Record, CacheResolverError>> {
    let mut seats: Vec<(Retrieval<Record>, Option<Action<Record>>)> = Vec::new();
    let mut outcomes: Vec<Option<Result<Record, CacheResolverError>>> = Vec::new();
    for _ in 0..callers {
        let (retrieval, action) = Retrieval::begin(key.to_string());
        seats.push((retrieval, Some(action)));
        outcomes.push(None);
    }
    let mut turn = 0;
    while outcomes.iter().any(|outcome| outcome.is_none()) {
        let seat = schedule[turn % schedule.len()] % callers;
        turn += 1;
        let (retrieval, pending) = &mut seats[seat];
        if let Some(action) = pending.take() {
            match perform(store, resolver, retrieval, action) {
                Ok(event) => *pending = retrieval.step(event),
                Err(outcome) => outcomes[seat] = Some(outcome),
            }
        }
    }
    outcomes.into_iter().map(|outcome| outcome.expect("every retrieval is over")).collect()
}

#[test]
fn concurrent_retrievals_of_a_fresh_key_agree() {
    let schedules: [&[usize]; 4] = [
        &[0, 1, 2, 3],
        &[3, 3, 2, 2, 1, 1, 0, 0],
        &[0, 0, 0, 0, 0, 0, 1, 2, 3],
        &[2, 0, 3, 1, 1, 3, 0, 2, 2],
    ];
    for schedule in schedules {
        let mut store = Store::reachable();
        let resolver = Resolver::answering(record(1));

        let outcomes = retrieve_together(&mut store, &resolver, "a", 4, schedule);
        assert_eq!(outcomes, vec![Ok(record(1)), Ok(record(1)), Ok(record(1)), Ok(record(1))]);
        assert!(resolver.calls.get() >= 1);
        assert_eq!(store.entries.get("a"), Some(&b"{\"n\":1}".to_vec()));

        let asked = resolver.calls.get();
        assert_eq!(retrieve(&mut store, &resolver, "a"), Ok(record(1)));
        assert_eq!(resolver.calls.get(), asked);
    }
}

#[test]
fn concurrent_misses_may_each_consult_the_resolver() {
    // Every caller looks up before any of them has written.
    let mut store = Store::reachable();
    let resolver = Resolver::answering(record(1));
    let outcomes = retrieve_together(&mut store, &resolver, "a", 3, &[0, 1, 2]);
    assert_eq!(outcomes, vec![Ok(record(1)), Ok(record(1)), Ok(record(1))]);
    assert_eq!(resolver.calls.get(), 3);
    assert_eq!(store.entries.get("a"), Some(&b"{\"n\":1}".to_vec()));
}

#[test]
fn concurrent_retrievals_one_after_another_consult_the_resolver_once() {
    let mut store = Store::reachable();
    let resolver = Resolver::answering(record(1));
    let schedule = [0, 0, 0, 0, 0, 1, 1, 1, 1, 1, 2, 2, 2, 2, 2];
    let outcomes = retrieve_together(&mut store, &resolver, "a", 3, &schedule);
    assert_eq!(outcomes, vec![Ok(record(1)), Ok(record(1)), Ok(record(1))]);
    assert_eq!(resolver.calls.get(), 1);
}

#[test]
fn concurrent_retrievals_agree_without_a_store() {
    let mut store = Store::unreachable();
    let resolver = Resolver::answering(record(1));
    let outcomes = retrieve_together(&mut store, &resolver, "a", 3, &[0, 1, 2, 2, 1, 0]);
    assert_eq!(outcomes, vec![Ok(record(1)), Ok(record(1)), Ok(record(1))]);
    assert_eq!(retrieve(&mut store, &resolver, "a"), Ok(record(1)));
}
