use syncx::dict::{found_or, found_or_missing, present_or_default, removed_or, ConcurrentDict};
use syncx::key::{HostObject, LookupError};

/// A host object for the tests: an integer that is equal to integers of the
/// same value, and unhashable where it is negative.
#[derive(Clone, Debug, PartialEq)]
struct Int(i64);

impl HostObject for Int {
    fn host_hash(&self) -> Option<i64> {
        if self.0 < 0 {
            None
        } else {
            Some(self.0 % 7)
        }
    }

    fn host_eq(&self, other: &Self) -> Option<bool> {
        Some(self.0 == other.0)
    }

    fn same_object(&self, other: &Self) -> bool {
        self.0 == other.0
    }
}

fn filled() -> ConcurrentDict<Int> {
    let dict = ConcurrentDict::new();
    for i in 0..20 {
        assert!(dict.set(Int(i), Int(i * 100)).is_ok());
    }
    dict
}

#[test]
fn dict_starts_empty() {
    let dict: ConcurrentDict<Int> = ConcurrentDict::new();
    assert_eq!(dict.len(), 0);
    assert!(dict.is_empty());
    assert_eq!(dict.contains(Int(1)).ok(), Some(false));
    assert!(dict.keys().is_empty());
}

#[test]
fn dict_set_then_get() {
    let dict = filled();
    assert_eq!(dict.len(), 20);
    assert!(!dict.is_empty());
    assert_eq!(dict.contains(Int(3)).ok(), Some(true));
    assert_eq!(dict.contains(Int(20)).ok(), Some(false));
    assert_eq!(dict.get_item(Int(3)).ok(), Some(Int(300)));
    assert_eq!(dict.get(Int(10), None).ok(), Some(Some(Int(1000))));
    assert_eq!(dict.get(Int(21), None).ok(), Some(None));
    assert_eq!(dict.get(Int(21), Some(Int(-1))).ok(), Some(Some(Int(-1))));
    assert_eq!(dict.get(Int(10), Some(Int(-1))).ok(), Some(Some(Int(1000))));
}

#[test]
fn dict_set_overwrites() {
    let dict = filled();
    assert!(dict.set(Int(3), Int(5)).is_ok());
    assert_eq!(dict.len(), 20);
    assert_eq!(dict.get_item(Int(3)).ok(), Some(Int(5)));
}

#[test]
fn dict_get_item_of_missing_key_fails_with_the_key() {
    let dict = filled();
    match dict.get_item(Int(33)) {
        Err(LookupError::Key(e)) => assert_eq!(e.key, Int(33)),
        _ => panic!("a missing key was found"),
    }
}

#[test]
fn dict_refuses_unhashable_keys() {
    let dict = filled();
    match dict.get_item(Int(-4)) {
        Err(LookupError::Hash(e)) => assert_eq!(e.value, Int(-4)),
        _ => panic!("an unhashable key was accepted"),
    }
    assert_eq!(dict.set(Int(-1), Int(0)).err().map(|e| e.value), Some(Int(-1)));
    assert_eq!(dict.contains(Int(-1)).err().map(|e| e.value), Some(Int(-1)));
    assert_eq!(dict.get(Int(-1), None).err().map(|e| e.value), Some(Int(-1)));
    assert_eq!(dict.setdefault(Int(-1), Int(0)).err().map(|e| e.value), Some(Int(-1)));
    assert!(matches!(dict.pop(Int(-1), Some(Int(0))), Err(LookupError::Hash(_))));
    assert!(matches!(dict.delete(Int(-1)), Err(LookupError::Hash(_))));
    assert_eq!(dict.len(), 20);
}

#[test]
fn dict_delete() {
    let dict = filled();
    assert!(dict.delete(Int(4)).is_ok());
    assert_eq!(dict.len(), 19);
    assert_eq!(dict.contains(Int(4)).ok(), Some(false));
    match dict.delete(Int(4)) {
        Err(LookupError::Key(e)) => assert_eq!(e.key, Int(4)),
        _ => panic!("a key was deleted twice"),
    }
}

#[test]
fn dict_setdefault_keeps_what_is_there() {
    let dict = filled();
    assert_eq!(dict.setdefault(Int(5), Int(1)).ok(), Some(Int(500)));
    assert_eq!(dict.get_item(Int(5)).ok(), Some(Int(500)));
    assert_eq!(dict.setdefault(Int(50), Int(1)).ok(), Some(Int(1)));
    assert_eq!(dict.get_item(Int(50)).ok(), Some(Int(1)));
    assert_eq!(dict.setdefault(Int(50), Int(2)).ok(), Some(Int(1)));
    assert_eq!(dict.len(), 21);
}

#[test]
fn dict_pop() {
    let dict = filled();
    assert_eq!(dict.pop(Int(6), None).ok(), Some(Int(600)));
    assert_eq!(dict.len(), 19);
    assert_eq!(dict.pop(Int(6), Some(Int(9))).ok(), Some(Int(9)));
    match dict.pop(Int(6), None) {
        Err(LookupError::Key(e)) => assert_eq!(e.key, Int(6)),
        _ => panic!("a missing key was popped"),
    }
    assert_eq!(dict.pop(Int(7), Some(Int(9))).ok(), Some(Int(700)));
}

#[test]
fn dict_clear() {
    let dict = filled();
    dict.clear();
    assert_eq!(dict.len(), 0);
    assert!(dict.is_empty());
    assert_eq!(dict.contains(Int(3)).ok(), Some(false));
}

#[test]
fn dict_keys_are_the_keys() {
    let dict = filled();
    let mut keys: Vec<i64> = dict.keys().into_iter().map(|k| k.0).collect();
    keys.sort();
    assert_eq!(keys, (0..20).collect::<Vec<i64>>());
}

#[test]
fn dict_export_then_import_gives_an_equal_map() {
    let dict = filled();
    let state = dict.export_state();
    assert_eq!(state.len(), 20);
    let mut fresh: ConcurrentDict<Int> = ConcurrentDict::new();
    assert!(fresh.set(Int(1000), Int(1)).is_ok());
    assert!(fresh.import_state(state).is_ok());
    assert_eq!(fresh.len(), dict.len());
    for i in 0..20 {
        assert_eq!(fresh.get_item(Int(i)).ok(), dict.get_item(Int(i)).ok());
    }
    assert_eq!(fresh.contains(Int(1000)).ok(), Some(false));
}

#[test]
fn dict_import_stops_at_an_unhashable_key() {
    let mut dict = filled();
    let state = vec![(Int(1), Int(2)), (Int(-3), Int(4)), (Int(5), Int(6))];
    assert_eq!(dict.import_state(state).err().map(|e| e.value), Some(Int(-3)));
    assert_eq!(dict.len(), 1);
    assert_eq!(dict.get_item(Int(1)).ok(), Some(Int(2)));
}

#[test]
fn dict_import_takes_the_last_of_equal_keys() {
    let mut dict: ConcurrentDict<Int> = ConcurrentDict::new();
    let state = vec![(Int(1), Int(2)), (Int(1), Int(3))];
    assert!(dict.import_state(state).is_ok());
    assert_eq!(dict.len(), 1);
    assert_eq!(dict.get_item(Int(1)).ok(), Some(Int(3)));
}

#[test]
fn outcome_functions_on_every_case() {
    assert_eq!(found_or(Some(1), Some(2)), Some(1));
    assert_eq!(found_or(Some(1), None), Some(1));
    assert_eq!(found_or(None, Some(2)), Some(2));
    assert_eq!(found_or::<i32>(None, None), None);
    assert_eq!(found_or_missing(Some(1), 9).ok(), Some(1));
    assert_eq!(found_or_missing(None, 9).err().map(|e| e.key), Some(9));
    assert_eq!(removed_or(Some(1), Some(2), 9).ok(), Some(1));
    assert_eq!(removed_or(Some(1), None, 9).ok(), Some(1));
    assert_eq!(removed_or(None, Some(2), 9).ok(), Some(2));
    assert_eq!(removed_or(None, None, 9).err().map(|e| e.key), Some(9));
}

#[test]
fn present_or_default_keeps_what_is_there_and_stores_what_is_not() {
    assert_eq!(present_or_default(Some(1), 2), (1, false));
    assert_eq!(present_or_default(None, 2), (2, true));
}

#[test]
fn dict_setdefault_on_a_present_key_changes_nothing() {
    let dict = filled();
    assert_eq!(dict.setdefault(Int(5), Int(77)).ok(), Some(Int(500)));
    assert_eq!(dict.len(), 20);
    assert_eq!(dict.get_item(Int(5)).ok(), Some(Int(500)));
    for i in 0..20 {
        assert_eq!(dict.get_item(Int(i)).ok(), Some(Int(i * 100)));
    }
    assert!(dict.export_state().iter().all(|(_, value)| *value != Int(77)));
}

#[test]
fn dict_setdefault_on_an_absent_key_stores_the_default() {
    let dict = filled();
    assert_eq!(dict.setdefault(Int(40), Int(77)).ok(), Some(Int(77)));
    assert_eq!(dict.len(), 21);
    assert_eq!(dict.get_item(Int(40)).ok(), Some(Int(77)));
    for i in 0..20 {
        assert_eq!(dict.get_item(Int(i)).ok(), Some(Int(i * 100)));
    }
}
