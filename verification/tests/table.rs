use aws_manager::table::TextMap;

#[test]
fn new_map_is_empty() {
    let map: TextMap<u64> = TextMap::new();
    assert_eq!(map.len(), 0);
    assert_eq!(map.get("a"), None);
    assert_eq!(map.find("a"), None);
}

#[test]
fn inserted_value_is_found() {
    let mut map: TextMap<u64> = TextMap::new();
    map.insert("a".to_string(), 1);
    map.insert("b".to_string(), 2);
    assert_eq!(map.len(), 2);
    assert_eq!(map.get("a"), Some(&1));
    assert_eq!(map.get("b"), Some(&2));
    assert_eq!(map.get("c"), None);
    assert_eq!(map.find("b"), Some(1));
    assert_eq!(map.key_at(0), "a");
    assert_eq!(*map.value_at(1), 2);
}

#[test]
fn insert_replaces_in_place() {
    let mut map: TextMap<u64> = TextMap::new();
    map.insert("a".to_string(), 1);
    map.insert("b".to_string(), 2);
    map.insert("a".to_string(), 3);
    assert_eq!(map.len(), 2);
    assert_eq!(map.key_at(0), "a");
    assert_eq!(map.key_at(1), "b");
    assert_eq!(map.get("a"), Some(&3));
    assert_eq!(map.get("b"), Some(&2));
}

#[test]
fn keys_are_told_apart_exactly() {
    let mut map: TextMap<u64> = TextMap::new();
    map.insert("key".to_string(), 1);
    assert_eq!(map.get("Key"), None);
    assert_eq!(map.get("key "), None);
    assert_eq!(map.get(""), None);
    map.insert(String::new(), 7);
    assert_eq!(map.get(""), Some(&7));
}
