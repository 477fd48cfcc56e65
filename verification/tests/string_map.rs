use kube_nimble::common::string_map::StringMap;

fn text(s: &str) -> String {
    s.to_owned()
}

#[test]
fn new_map_is_empty() {
    let map = StringMap::new();
    assert_eq!(map.len(), 0);
    assert!(map.is_empty());
    assert_eq!(map.get("app"), None);
    assert!(!map.contains_key("app"));
    assert!(map.entries().is_empty());
}

#[test]
fn insert_adds_an_entry() {
    let mut map = StringMap::new();
    assert_eq!(map.insert(text("app"), text("web")), None);
    assert_eq!(map.len(), 1);
    assert!(!map.is_empty());
    assert_eq!(map.get("app"), Some(&text("web")));
    assert!(map.contains_key("app"));
    assert_eq!(map.get("tier"), None);
}

#[test]
fn insert_replaces_the_value_of_a_known_key() {
    let mut map = StringMap::new();
    map.insert(text("app"), text("web"));
    map.insert(text("tier"), text("front"));
    assert_eq!(map.insert(text("app"), text("api")), Some(text("web")));
    assert_eq!(map.len(), 2);
    assert_eq!(map.get("app"), Some(&text("api")));
    assert_eq!(map.get("tier"), Some(&text("front")));
}

#[test]
fn entries_hold_each_key_once() {
    let mut map = StringMap::new();
    map.insert(text("a"), text("1"));
    map.insert(text("b"), text("2"));
    map.insert(text("a"), text("3"));
    let mut entries = map.entries();
    entries.sort();
    assert_eq!(entries, vec![(text("a"), text("3")), (text("b"), text("2"))]);
}

#[test]
fn maps_are_equal_whatever_the_order_of_insertion() {
    let mut first = StringMap::new();
    first.insert(text("a"), text("1"));
    first.insert(text("b"), text("2"));
    let mut second = StringMap::new();
    second.insert(text("b"), text("2"));
    second.insert(text("a"), text("1"));
    assert!(first == second);
    assert!(second == first);
}

#[test]
fn maps_differ_by_a_value_a_key_or_their_size() {
    let mut first = StringMap::new();
    first.insert(text("a"), text("1"));
    let mut other_value = StringMap::new();
    other_value.insert(text("a"), text("2"));
    let mut other_key = StringMap::new();
    other_key.insert(text("b"), text("1"));
    let mut larger = StringMap::new();
    larger.insert(text("a"), text("1"));
    larger.insert(text("b"), text("2"));
    assert!(first != other_value);
    assert!(first != other_key);
    assert!(first != larger);
    assert!(larger != first);
    assert!(first != StringMap::new());
}

#[test]
fn clone_keeps_the_entries() {
    let mut map = StringMap::new();
    map.insert(text("app"), text("web"));
    map.insert(text("tier"), text("front"));
    let copy = map.clone();
    assert!(copy == map);
    assert_eq!(copy.len(), 2);
    assert_eq!(copy.get("tier"), Some(&text("front")));
}

#[test]
fn keys_are_compared_exactly() {
    let mut map = StringMap::new();
    map.insert(text("App"), text("1"));
    map.insert(text("app"), text("2"));
    map.insert(text(""), text("3"));
    assert_eq!(map.len(), 3);
    assert_eq!(map.get("App"), Some(&text("1")));
    assert_eq!(map.get("app"), Some(&text("2")));
    assert_eq!(map.get(""), Some(&text("3")));
    assert_eq!(map.get("APP"), None);
}
