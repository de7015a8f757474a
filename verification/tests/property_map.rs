use notion_clipper_cli::PropertyMap;

#[test]
fn new_map_is_empty() {
    let map: PropertyMap<u32> = PropertyMap::new();
    assert_eq!(map.len(), 0);
    assert!(map.is_empty());
    assert!(map.entry(0).is_none());
    assert!(map.get("Name").is_none());
    assert!(!map.contains_key("Name"));
}

#[test]
fn insert_keeps_insertion_order() {
    let mut map: PropertyMap<u32> = PropertyMap::new();
    assert_eq!(map.insert("b".to_string(), 1), None);
    assert_eq!(map.insert("a".to_string(), 2), None);
    assert_eq!(map.insert("c".to_string(), 3), None);
    assert_eq!(map.len(), 3);
    assert!(!map.is_empty());
    assert_eq!(map.entry(0), Some((&"b".to_string(), &1)));
    assert_eq!(map.entry(1), Some((&"a".to_string(), &2)));
    assert_eq!(map.entry(2), Some((&"c".to_string(), &3)));
    assert_eq!(map.entry(3), None);
}

#[test]
fn insert_replaces_in_place_and_returns_the_old_value() {
    let mut map: PropertyMap<u32> = PropertyMap::new();
    map.insert("b".to_string(), 1);
    map.insert("a".to_string(), 2);
    assert_eq!(map.insert("b".to_string(), 10), Some(1));
    assert_eq!(map.len(), 2);
    assert_eq!(map.entry(0), Some((&"b".to_string(), &10)));
    assert_eq!(map.entry(1), Some((&"a".to_string(), &2)));
    assert_eq!(map.get("b"), Some(&10));
    assert_eq!(map.get("a"), Some(&2));
    assert_eq!(map.get("c"), None);
}

#[test]
fn get_finds_each_key() {
    let mut map: PropertyMap<String> = PropertyMap::new();
    map.insert("Name".to_string(), "title".to_string());
    map.insert("".to_string(), "empty".to_string());
    map.insert("Tags".to_string(), "multi_select".to_string());
    assert_eq!(map.get("Name").map(String::as_str), Some("title"));
    assert_eq!(map.get("").map(String::as_str), Some("empty"));
    assert_eq!(map.get("Tags").map(String::as_str), Some("multi_select"));
    assert!(map.contains_key("Tags"));
    assert!(!map.contains_key("tags"));
}

#[test]
fn clone_keeps_keys_and_values() {
    let mut map: PropertyMap<u32> = PropertyMap::new();
    map.insert("x".to_string(), 1);
    map.insert("y".to_string(), 2);
    let copy = map.clone();
    assert_eq!(copy.len(), 2);
    assert_eq!(copy.entry(0), Some((&"x".to_string(), &1)));
    assert_eq!(copy.entry(1), Some((&"y".to_string(), &2)));
}
