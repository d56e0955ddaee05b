use paracell::map::OrderedHashMap;

#[test]
fn insert_returns_positions_in_order() {
    let mut m: OrderedHashMap<u64, &str> = OrderedHashMap::new();
    assert_eq!(m.insert(7, "seven"), 0);
    assert_eq!(m.insert(3, "three"), 1);
    assert_eq!(m.keys, vec![7, 3]);
    assert_eq!(m.vals, vec!["seven", "three"]);
    assert_eq!(m.get(&7), Some(&"seven"));
    assert_eq!(m.get(&3), Some(&"three"));
    assert_eq!(m.get(&4), None);
}

#[test]
fn duplicate_key_last_write_wins() {
    let mut m: OrderedHashMap<String, u32> = OrderedHashMap::new();
    m.insert("a".to_string(), 1);
    m.insert("b".to_string(), 2);
    assert_eq!(m.insert("a".to_string(), 3), 2);
    assert_eq!(m.get(&"a".to_string()), Some(&3));
    assert_eq!(m.vals, vec![1, 2, 3]);
    assert_eq!(m.keys.len(), 3);
}

#[test]
fn empty_map_finds_nothing() {
    let m: OrderedHashMap<u8, u8> = OrderedHashMap::new();
    assert_eq!(m.get(&0), None);
    assert!(m.vals.is_empty());
}

#[test]
fn string_keys_last_write_wins() {
    let mut m: OrderedHashMap<&str, u32> = OrderedHashMap::new();
    assert_eq!(m.insert("a", 1), 0);
    assert_eq!(m.insert("b", 2), 1);
    assert_eq!(m.insert("a", 3), 2);
    assert_eq!(m.get(&"a"), Some(&3));
    assert_eq!(m.get(&"b"), Some(&2));
    assert_eq!(m.get(&"c"), None);
    assert_eq!(m.vals, vec![1, 2, 3]);
    assert_eq!(m.keys, vec!["a", "b", "a"]);
}
