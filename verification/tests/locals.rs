use futures_task::{Local, LocalMap, Opaque};
use std::cell::Cell;

#[test]
fn new_map_is_empty() {
    let map: LocalMap<u32> = LocalMap::new();
    assert_eq!(map.len(), 0);
    assert!(!map.contains_key(0));
    assert_eq!(map.get(0), None);
}

#[test]
fn first_access_stores_the_initial_value() {
    let mut map: LocalMap<u32> = LocalMap::new();
    assert_eq!(*map.get_or_insert_with(7, || 42), 42);
    assert_eq!(map.len(), 1);
    assert!(map.contains_key(7));
    assert_eq!(map.get(7), Some(&42));
}

#[test]
fn second_access_finds_the_first_value() {
    let mut map: LocalMap<u32> = LocalMap::new();
    assert_eq!(*map.get_or_insert_with(7, || 42), 42);
    assert_eq!(*map.get_or_insert_with(7, || 43), 42);
    assert_eq!(*map.get_or_insert_with(7, || 44), 42);
    assert_eq!(map.len(), 1);
}

#[test]
fn initialiser_runs_once_for_each_key() {
    let calls = Cell::new(0);
    let mut map: LocalMap<String> = LocalMap::new();
    for _ in 0..5 {
        let value = map.get_or_insert_with(3, || {
            calls.set(calls.get() + 1);
            String::from("made once")
        });
        assert_eq!(value, "made once");
    }
    assert_eq!(calls.get(), 1);
}

#[test]
fn repeated_access_yields_the_same_place() {
    let mut map: LocalMap<Box<u64>> = LocalMap::new();
    let first = format!("{:p}", &**map.get_or_insert_with(1, || Box::new(5)));
    let again = format!("{:p}", &**map.get_or_insert_with(1, || Box::new(6)));
    assert_eq!(first, again);
    let other = format!("{:p}", &**map.get_or_insert_with(2, || Box::new(5)));
    assert_ne!(first, other);
    let still = format!("{:p}", &**map.get_or_insert_with(1, || Box::new(7)));
    assert_eq!(first, still);
}

#[test]
fn keys_do_not_disturb_each_other() {
    let mut map: LocalMap<u32> = LocalMap::new();
    map.get_or_insert_with(1, || 10);
    map.get_or_insert_with(2, || 20);
    map.get_or_insert_with(usize::MAX, || 30);
    assert_eq!(map.len(), 3);
    assert_eq!(map.get(1), Some(&10));
    assert_eq!(map.get(2), Some(&20));
    assert_eq!(map.get(usize::MAX), Some(&30));
    assert_eq!(map.get(3), None);
}

#[test]
fn prepare_says_whether_it_made_the_value() {
    let mut map: LocalMap<u32> = LocalMap::new();
    assert!(map.prepare(9, || 1));
    assert!(!map.prepare(9, || 2));
    assert!(map.prepare(8, || 3));
    assert_eq!(map.get(9), Some(&1));
    assert_eq!(map.get(8), Some(&3));
    assert_eq!(map.len(), 2);
}

#[test]
fn local_wraps_a_boxed_value() {
    let local = Local::new(Box::new(12u8));
    assert_eq!(**local.get(), 12);
    assert_eq!(*local.into_inner(), 12);
}

#[test]
fn values_of_different_types_share_a_map() {
    let mut map: LocalMap = LocalMap::new();
    let number: Box<dyn Opaque> = Box::new(1u64);
    let text: Box<dyn Opaque> = Box::new(String::from("two"));
    assert!(map.prepare(1, || Local::new(number)));
    assert!(map.prepare(2, || Local::new(text)));
    assert_eq!(map.len(), 2);
    assert!(map.get(1).is_some());
    assert!(map.get(2).is_some());
    assert!(map.get(3).is_none());
}
