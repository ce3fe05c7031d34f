use yetii::config::string_map::StringMap;

#[test]
fn a_new_map_is_empty() {
    let map: StringMap<u32> = StringMap::new();
    assert_eq!(map.len(), 0);
    assert!(map.is_empty());
    assert_eq!(map.get("a"), None);
    assert!(!map.contains_key("a"));
}

#[test]
fn what_is_stored_is_found() {
    let mut map = StringMap::new();
    map.insert("id".to_string(), 1u32);
    map.insert("name".to_string(), 2u32);
    assert_eq!(map.len(), 2);
    assert!(!map.is_empty());
    assert_eq!(map.get("id"), Some(&1));
    assert_eq!(map.get("name"), Some(&2));
    assert_eq!(map.get("email"), None);
    assert_eq!(map.get("i"), None);
    assert!(map.contains_key("name"));
    assert!(!map.contains_key("Name"));
}

#[test]
fn storing_under_a_key_again_replaces_its_value_in_place() {
    let mut map = StringMap::new();
    map.insert("a".to_string(), 1u32);
    map.insert("b".to_string(), 2u32);
    map.insert("a".to_string(), 3u32);
    assert_eq!(map.len(), 2);
    assert_eq!(map.get("a"), Some(&3));
    assert_eq!(map.get("b"), Some(&2));
    assert_eq!(map.key_at(0), "a");
    assert_eq!(*map.value_at(0), 3);
    assert_eq!(map.key_at(1), "b");
    assert_eq!(*map.value_at(1), 2);
}

#[test]
fn a_copy_of_a_map_holds_the_same_entries_and_is_its_own() {
    let mut map = StringMap::new();
    map.insert("a".to_string(), "x".to_string());
    map.insert("b".to_string(), "y".to_string());
    let mut copy = map.clone();
    assert_eq!(copy, map);
    copy.insert("a".to_string(), "z".to_string());
    assert_eq!(map.get("a"), Some(&"x".to_string()));
    assert_eq!(copy.get("a"), Some(&"z".to_string()));
    assert_ne!(copy, map);
}
