use shortener::allocator::{
    allocate, allocate_from, judge, AllocationError, Verdict, MAX_ATTEMPTS,
};
use shortener::id::{generate_id, CODE_LENGTH};
use shortener::storage::memory::MemoryStorage;
use shortener::shorten::{resolve, Resolution};
use shortener::storage::{Error, Storage};

/// A store that answers every write from a script and counts the writes.
struct Scripted {
    answers: Vec<Result<(), Error>>,
    writes: Vec<String>,
}

impl Scripted {
    fn new(answers: Vec<Result<(), Error>>) -> Scripted {
        Scripted { answers, writes: Vec::new() }
    }
}

impl Storage for Scripted {
    fn get(&self, _key: &str) -> Option<String> {
        None
    }

    fn set(&mut self, key: &str, _value: &str) -> Result<(), Error> {
        let answer = self.answers[self.writes.len()];
        self.writes.push(key.to_string());
        answer
    }

    fn key_count(&self) -> u64 {
        0
    }
}

fn codes(names: &[&str]) -> Vec<String> {
    names.iter().map(|name| name.to_string()).collect()
}

fn is_alphanumeric_code(code: &str) -> bool {
    code.chars().count() == CODE_LENGTH && code.chars().all(|c| c.is_ascii_alphanumeric())
}

#[test]
fn retry_bound_is_five() {
    assert_eq!(MAX_ATTEMPTS, 5);
}

#[test]
fn generated_codes_have_eight_alphanumeric_characters() {
    assert_eq!(CODE_LENGTH, 8);
    for _ in 0..200 {
        let code = generate_id();
        assert!(is_alphanumeric_code(&code), "{}", code);
    }
}

#[test]
fn generated_codes_differ() {
    let first = generate_id();
    let mut all_same = true;
    for _ in 0..20 {
        if generate_id() != first {
            all_same = false;
        }
    }
    assert!(!all_same);
}

#[test]
fn created_code_resolves_to_its_url() {
    let mut store = MemoryStorage::new();
    for url in ["https://example.com", "http://a.b/c?d=e#f", "", "not a url at all"] {
        let code = allocate(&mut store, url).unwrap();
        assert!(is_alphanumeric_code(&code));
        assert_eq!(resolve(&store, &code), Resolution::Redirect { location: url.to_string() });
    }
    assert_eq!(store.key_count(), 4);
}

#[test]
fn first_free_candidate_is_stored() {
    let mut store = MemoryStorage::new();
    let candidates = codes(&["aaaaaaaa", "bbbbbbbb"]);
    assert_eq!(
        allocate_from(&mut store, &candidates, "https://example.com"),
        Ok("aaaaaaaa".to_string())
    );
    assert_eq!(store.get("aaaaaaaa"), Some("https://example.com".to_string()));
    assert_eq!(store.get("bbbbbbbb"), None);
}

#[test]
fn every_collision_costs_one_retry_with_the_next_code() {
    let names = ["c0000000", "c1111111", "c2222222", "c3333333", "c4444444", "c5555555"];
    let candidates = codes(&names);
    for taken in 0..5 {
        let mut store = MemoryStorage::new();
        for name in &names[..taken] {
            store.set(name, "https://taken.example").unwrap();
        }
        assert_eq!(
            allocate_from(&mut store, &candidates, "https://example.com"),
            Ok(names[taken].to_string())
        );
        assert_eq!(store.key_count(), taken as u64 + 1);
        assert_eq!(store.get(names[taken]), Some("https://example.com".to_string()));
        for name in &names[..taken] {
            assert_eq!(store.get(name), Some("https://taken.example".to_string()));
        }
    }
}

#[test]
fn five_collisions_exhaust_the_allocation() {
    let names = ["c0000000", "c1111111", "c2222222", "c3333333", "c4444444", "c5555555"];
    let mut store = MemoryStorage::new();
    for name in &names[..5] {
        store.set(name, "https://taken.example").unwrap();
    }
    assert_eq!(
        allocate_from(&mut store, &codes(&names), "https://example.com"),
        Err(AllocationError::Exhausted)
    );
    assert_eq!(store.key_count(), 5);
    assert_eq!(store.get("c5555555"), None);
}

#[test]
fn forced_duplicates_cause_exactly_as_many_retries() {
    let names = ["c0000000", "c1111111", "c2222222", "c3333333", "c4444444", "c5555555"];
    for duplicates in 0..5 {
        let mut answers = vec![Err(Error::DuplicateKey); duplicates];
        answers.push(Ok(()));
        let mut store = Scripted::new(answers);
        assert_eq!(
            allocate_from(&mut store, &codes(&names), "https://example.com"),
            Ok(names[duplicates].to_string())
        );
        assert_eq!(store.writes, codes(&names[..duplicates + 1]));
    }
}

#[test]
fn exhausted_after_exactly_five_duplicates() {
    let names = ["c0000000", "c1111111", "c2222222", "c3333333", "c4444444", "c5555555"];
    let mut store = Scripted::new(vec![Err(Error::DuplicateKey); 6]);
    assert_eq!(
        allocate_from(&mut store, &codes(&names), "https://example.com"),
        Err(AllocationError::Exhausted)
    );
    assert_eq!(store.writes, codes(&names[..5]));
}

#[test]
fn random_allocation_tries_five_fresh_codes() {
    let mut store = Scripted::new(vec![Err(Error::DuplicateKey); 5]);
    assert_eq!(allocate(&mut store, "https://example.com"), Err(AllocationError::Exhausted));
    assert_eq!(store.writes.len(), 5);
    for code in &store.writes {
        assert!(is_alphanumeric_code(code));
    }
    let first = &store.writes[0];
    assert!(store.writes.iter().any(|code| code != first));
}

#[test]
fn backend_failure_ends_the_allocation_at_once() {
    let names = ["c0000000", "c1111111", "c2222222"];
    let mut store = Scripted::new(vec![Err(Error::GenericError), Ok(()), Ok(())]);
    assert_eq!(
        allocate_from(&mut store, &codes(&names), "https://example.com"),
        Err(AllocationError::Backend)
    );
    assert_eq!(store.writes, codes(&names[..1]));
}

#[test]
fn backend_failure_after_duplicates_is_not_retried() {
    let names = ["c0000000", "c1111111", "c2222222", "c3333333"];
    let mut store = Scripted::new(vec![
        Err(Error::DuplicateKey),
        Err(Error::DuplicateKey),
        Err(Error::GenericError),
        Ok(()),
    ]);
    assert_eq!(
        allocate_from(&mut store, &codes(&names), "https://example.com"),
        Err(AllocationError::Backend)
    );
    assert_eq!(store.writes.len(), 3);
}

#[test]
fn no_candidates_exhaust_at_once() {
    let mut store = MemoryStorage::new();
    assert_eq!(
        allocate_from(&mut store, &Vec::new(), "https://example.com"),
        Err(AllocationError::Exhausted)
    );
    assert_eq!(store.key_count(), 0);
}

#[test]
fn fewer_candidates_than_the_bound_are_all_tried() {
    let mut store = MemoryStorage::new();
    store.set("c0000000", "https://taken.example").unwrap();
    store.set("c1111111", "https://taken.example").unwrap();
    assert_eq!(
        allocate_from(&mut store, &codes(&["c0000000", "c1111111"]), "https://example.com"),
        Err(AllocationError::Exhausted)
    );
    assert_eq!(
        allocate_from(
            &mut store,
            &codes(&["c0000000", "c1111111", "c2222222"]),
            "https://example.com"
        ),
        Ok("c2222222".to_string())
    );
}

#[test]
fn a_repeated_candidate_collides_with_itself_only_once_stored() {
    let mut store = MemoryStorage::new();
    let candidates = codes(&["same0000", "same0000"]);
    assert_eq!(allocate_from(&mut store, &candidates, "u1"), Ok("same0000".to_string()));
    assert_eq!(allocate_from(&mut store, &candidates, "u2"), Err(AllocationError::Exhausted));
    assert_eq!(store.get("same0000"), Some("u1".to_string()));
}

#[test]
fn sixth_candidate_is_never_tried() {
    let names = ["c0000000", "c1111111", "c2222222", "c3333333", "c4444444", "c5555555"];
    let mut answers = vec![Err(Error::DuplicateKey); 5];
    answers.push(Ok(()));
    let mut store = Scripted::new(answers);
    assert_eq!(
        allocate_from(&mut store, &codes(&names), "https://example.com"),
        Err(AllocationError::Exhausted)
    );
    assert!(!store.writes.contains(&"c5555555".to_string()));
}

#[test]
fn verdicts_on_answers() {
    assert_eq!(judge(&Ok(()), 1, 5), Verdict::Stored);
    assert_eq!(judge(&Ok(()), 5, 5), Verdict::Stored);
    for attempt in 1..5 {
        assert_eq!(judge(&Err(Error::DuplicateKey), attempt, 5), Verdict::Retry);
    }
    assert_eq!(
        judge(&Err(Error::DuplicateKey), 5, 5),
        Verdict::GiveUp(AllocationError::Exhausted)
    );
    assert_eq!(
        judge(&Err(Error::DuplicateKey), 1, 1),
        Verdict::GiveUp(AllocationError::Exhausted)
    );
    for attempt in 1..=5 {
        assert_eq!(
            judge(&Err(Error::GenericError), attempt, 5),
            Verdict::GiveUp(AllocationError::Backend)
        );
    }
}
