use magician::session::{AlreadyBuilding, Anchor, Collected, DraftRecord, SessionStore};

#[test]
fn a_fresh_store_holds_nothing() {
    let store = SessionStore::new();
    assert_eq!(store.len(), 0);
    assert!(!store.contains(1));
    assert!(store.get(1).is_none());
}

#[test]
fn begin_opens_an_empty_record() {
    let mut store = SessionStore::new();
    assert_eq!(store.begin(7), Ok(()));
    assert!(store.contains(7));
    assert_eq!(store.len(), 1);
    let record = store.get(7).unwrap();
    assert!(record.collected.is_empty());
    assert_eq!(record.collected.len(), 0);
    assert_eq!(record.anchor, None);
}

#[test]
fn begin_twice_is_refused() {
    let mut store = SessionStore::new();
    assert_eq!(store.begin(7), Ok(()));
    store.get_mut(7).unwrap().collected.insert("name".to_string(), "Zara".to_string());
    assert_eq!(store.begin(7), Err(AlreadyBuilding));
    assert_eq!(store.begin(7), Err(AlreadyBuilding));
    assert_eq!(store.len(), 1);
    assert_eq!(store.get(7).unwrap().collected.get("name"), Some(&"Zara".to_string()));
}

#[test]
fn users_build_side_by_side() {
    let mut store = SessionStore::new();
    assert_eq!(store.begin(1), Ok(()));
    assert_eq!(store.begin(2), Ok(()));
    assert_eq!(store.len(), 2);
    store.get_mut(1).unwrap().collected.insert("name".to_string(), "Zara".to_string());
    store.get_mut(2).unwrap().anchor = Some(Anchor { channel_id: 5, message_id: 6 });
    assert!(store.get(2).unwrap().collected.is_empty());
    assert_eq!(store.get(1).unwrap().anchor, None);
    assert_eq!(store.get(1).unwrap().collected.len(), 1);
    assert_eq!(store.get(2).unwrap().anchor, Some(Anchor { channel_id: 5, message_id: 6 }));
}

#[test]
fn get_mut_writes_through_to_the_store() {
    let mut store = SessionStore::new();
    store.begin(3).unwrap();
    {
        let record = store.get_mut(3).unwrap();
        record.collected.insert("likes".to_string(), "tea".to_string());
        record.collected.insert("likes".to_string(), "coffee".to_string());
        record.anchor = Some(Anchor { channel_id: 10, message_id: 20 });
    }
    let record = store.get(3).unwrap();
    assert_eq!(record.collected.len(), 1);
    assert_eq!(record.collected.get("likes"), Some(&"coffee".to_string()));
    assert_eq!(record.anchor, Some(Anchor { channel_id: 10, message_id: 20 }));
    assert!(store.get_mut(4).is_none());
}

#[test]
fn cancel_without_record_changes_nothing() {
    let mut store = SessionStore::new();
    store.begin(1).unwrap();
    assert!(store.cancel(2).is_none());
    assert!(store.cancel(2).is_none());
    assert_eq!(store.len(), 1);
    assert!(store.contains(1));
}

#[test]
fn cancel_hands_back_the_record_and_frees_the_user() {
    let mut store = SessionStore::new();
    store.begin(1).unwrap();
    store.get_mut(1).unwrap().collected.insert("name".to_string(), "Zara".to_string());
    let removed = store.cancel(1).unwrap();
    assert_eq!(removed.collected.get("name"), Some(&"Zara".to_string()));
    assert!(!store.contains(1));
    assert!(store.cancel(1).is_none());
    assert_eq!(store.begin(1), Ok(()));
    assert!(store.get(1).unwrap().collected.is_empty());
}

#[test]
fn finish_hands_back_the_record_and_frees_the_user() {
    let mut store = SessionStore::new();
    store.begin(1).unwrap();
    store.begin(2).unwrap();
    store.get_mut(1).unwrap().collected.insert("class".to_string(), "caster".to_string());
    let removed = store.finish(1).unwrap();
    assert_eq!(removed.collected.get("class"), Some(&"caster".to_string()));
    assert!(store.finish(1).is_none());
    assert!(store.contains(2));
    assert_eq!(store.begin(1), Ok(()));
}

#[test]
fn collected_values_are_added_and_overwritten() {
    let mut collected = Collected::new();
    assert!(collected.is_empty());
    assert!(!collected.contains_key("name"));
    assert_eq!(collected.get("name"), None);
    collected.insert("name".to_string(), "Zara".to_string());
    collected.insert("species".to_string(), "Elf".to_string());
    assert_eq!(collected.len(), 2);
    assert!(collected.contains_key("name"));
    collected.insert("name".to_string(), "Zoë".to_string());
    assert_eq!(collected.len(), 2);
    assert_eq!(collected.get("name"), Some(&"Zoë".to_string()));
    assert_eq!(collected.get("species"), Some(&"Elf".to_string()));
    assert!(!collected.is_empty());
}

#[test]
fn a_new_record_is_empty() {
    let record = DraftRecord::new();
    assert!(record.collected.is_empty());
    assert_eq!(record.anchor, None);
}
