use move_fmt::key_order::precedes;
use move_fmt::ConfigOverrides;

fn pairs(config: &ConfigOverrides) -> Vec<(String, String)> {
    config.entries().clone()
}

fn pair(key: &str, value: &str) -> (String, String) {
    (key.to_string(), value.to_string())
}

#[test]
fn new_overrides_are_empty() {
    let config = ConfigOverrides::new();
    assert!(config.is_empty());
    assert_eq!(config.len(), 0);
    assert!(config.entries().is_empty());
}

#[test]
fn insert_keeps_the_keys_in_order() {
    let mut config = ConfigOverrides::new();
    assert_eq!(config.insert("m".to_string(), "1".to_string()), None);
    assert_eq!(config.insert("z".to_string(), "2".to_string()), None);
    assert_eq!(config.insert("a".to_string(), "3".to_string()), None);
    assert_eq!(config.insert("n".to_string(), "4".to_string()), None);
    assert_eq!(pairs(&config), vec![pair("a", "3"), pair("m", "1"), pair("n", "4"), pair("z", "2")]);
    assert_eq!(config.len(), 4);
    assert!(!config.is_empty());
}

#[test]
fn insert_replaces_the_value_of_a_known_key() {
    let mut config = ConfigOverrides::new();
    config.insert("a".to_string(), "1".to_string());
    config.insert("b".to_string(), "2".to_string());
    assert_eq!(config.insert("a".to_string(), "9".to_string()), Some("1".to_string()));
    assert_eq!(pairs(&config), vec![pair("a", "9"), pair("b", "2")]);
    assert_eq!(config.insert("b".to_string(), "8".to_string()), Some("2".to_string()));
    assert_eq!(pairs(&config), vec![pair("a", "9"), pair("b", "8")]);
    assert_eq!(config.len(), 2);
}

#[test]
fn the_order_of_insertion_leaves_no_trace() {
    let mut forward = ConfigOverrides::new();
    let mut backward = ConfigOverrides::new();
    let keys = ["indent", "max_width", "a", "ab", "", "Z", "\u{e9}t\u{e9}"];
    for key in keys {
        forward.insert(key.to_string(), key.to_uppercase());
    }
    for key in keys.iter().rev() {
        backward.insert(key.to_string(), key.to_uppercase());
    }
    assert_eq!(forward, backward);
    assert_eq!(forward.len(), keys.len());
}

#[test]
fn entries_come_out_as_a_sorted_map_would_give_them() {
    let keys = ["b", "a", "ab", "", "B", "\u{e9}", "z", "a\u{0}", "~", "\u{10348}", "\u{ffff}"];
    let mut config = ConfigOverrides::new();
    let mut map = std::collections::BTreeMap::new();
    for (position, key) in keys.iter().enumerate() {
        config.insert(key.to_string(), position.to_string());
        map.insert(key.to_string(), position.to_string());
    }
    let expected: Vec<(String, String)> = map.into_iter().collect();
    assert_eq!(pairs(&config), expected);
}

#[test]
fn a_prefix_comes_before_its_extensions() {
    assert!(precedes("", "a"));
    assert!(precedes("a", "ab"));
    assert!(!precedes("ab", "a"));
    assert!(!precedes("a", ""));
}

#[test]
fn nothing_comes_before_itself() {
    for key in ["", "a", "max_width", "\u{e9}"] {
        assert!(!precedes(key, key));
    }
}

#[test]
fn keys_are_ordered_by_their_bytes() {
    let keys = ["", "A", "a", "ab", "abc", "b", "max_width", "\u{e9}", "\u{ffff}", "\u{10348}"];
    for left in keys {
        for right in keys {
            assert_eq!(precedes(left, right), left < right);
        }
    }
    assert!(precedes("Z", "a"));
    assert!(precedes("~", "\u{e9}"));
    assert!(precedes("\u{ffff}", "\u{10348}"));
}
