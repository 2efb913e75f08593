//! Texts, sets and maps of texts.
use alpaca_options::text::bool_text;
use alpaca_options::text::comes_before;
use alpaca_options::text::contains_part;
use alpaca_options::text::count_text;
use alpaca_options::text::decimal_text;
use alpaca_options::text::format_list;
use alpaca_options::text::is_blank;
use alpaca_options::text::join;
use alpaca_options::text::non_empty;
use alpaca_options::text::signed_text;
use alpaca_options::text::starts_with;
use alpaca_options::text::to_lower;
use alpaca_options::text::to_upper;
use alpaca_options::text::trim;
use alpaca_options::text_map::TextMap;
use alpaca_options::text_set::TextSet;

fn owned(items: &[&str]) -> Vec<String> {
    items.iter().map(|item| item.to_string()).collect()
}

#[test]
fn numbers_are_written_as_the_standard_library_writes_them() {
    for n in [0u64, 7, 10, 99, 1_000, u64::MAX] {
        assert_eq!(decimal_text(n), n.to_string());
    }
    for n in [0usize, 12, usize::MAX] {
        assert_eq!(count_text(n), n.to_string());
    }
    for n in [0i64, -1, 42, i64::MAX, i64::MIN] {
        assert_eq!(signed_text(n), n.to_string());
    }
    assert_eq!(bool_text(true), "true");
    assert_eq!(bool_text(false), "false");
}

#[test]
fn lists_are_joined_between_neighbours_only() {
    assert_eq!(join(&owned(&["a", "b", "c"]), "|"), "a|b|c");
    assert_eq!(join(&owned(&["a"]), "|"), "a");
    assert_eq!(join(&Vec::new(), "|"), "");
    assert_eq!(format_list(&Vec::new()), "none");
    assert_eq!(format_list(&owned(&["x", "y"])), "x,y");
}

#[test]
fn trimming_follows_unicode_white_space() {
    for text in ["  a b ", "\t\n", "", "x", "\u{a0}wide\u{3000}", " \u{2003}y"] {
        assert_eq!(trim(text), text.trim());
        assert_eq!(is_blank(text), text.trim().is_empty());
    }
    assert_eq!(non_empty(Some("  SPY ")), Some("SPY"));
    assert_eq!(non_empty(Some("   ")), None);
    assert_eq!(non_empty(None), None);
}

#[test]
fn case_changes_touch_ascii_letters_only() {
    for text in ["SpY", "abc-XYZ_09", "\u{e9}A\u{c9}a", ""] {
        assert_eq!(to_upper(text), text.to_ascii_uppercase());
        assert_eq!(to_lower(text), text.to_ascii_lowercase());
    }
}

#[test]
fn parts_are_found_as_the_standard_library_finds_them() {
    for (whole, part) in [("abc", "b"), ("abc", ""), ("", "a"), ("aab", "ab"), ("abc", "abcd")] {
        assert_eq!(contains_part(whole, part), whole.contains(part));
        assert_eq!(starts_with(whole, part), whole.starts_with(part));
    }
}

#[test]
fn texts_are_ordered_as_the_standard_library_orders_them() {
    let items = ["", "a", "aa", "b", "A", "\u{10000}", "\u{ffff}", "z"];
    for left in items {
        for right in items {
            assert_eq!(comes_before(left, right), left < right);
        }
    }
}

#[test]
fn sets_keep_their_elements_in_order_and_once() {
    let mut set = TextSet::new();
    assert!(set.is_empty());
    assert!(set.insert("b".to_string()));
    assert!(set.insert("a".to_string()));
    assert!(!set.insert("b".to_string()));
    assert_eq!(set.to_texts(), owned(&["a", "b"]));
    assert_eq!(set.len(), 2);
    assert!(set.contains("a"));
    assert!(set.remove("a"));
    assert!(!set.remove("a"));
    assert_eq!(set.to_texts(), owned(&["b"]));
}

#[test]
fn sets_with_the_same_elements_are_the_same() {
    let left = TextSet::from_texts(&owned(&["x", "y", "x"]));
    let right = TextSet::from_texts(&owned(&["y", "x"]));
    let other = TextSet::from_texts(&owned(&["y", "z"]));
    assert!(left.same_as(&right));
    assert!(!left.same_as(&other));
    assert_eq!(left.intersection(&other), owned(&["y"]));
    assert_eq!(left.difference(&other), owned(&["x"]));
    assert!(!left.is_disjoint(&other));
    let mut all = left.clone();
    all.extend(&other);
    assert_eq!(all.to_texts(), owned(&["x", "y", "z"]));
}

#[test]
fn maps_keep_one_value_per_key() {
    let mut map: TextMap<usize> = TextMap::new();
    map.add_count("b", 2);
    map.add_count("a", 1);
    map.add_count("b", 3);
    assert_eq!(map.len(), 2);
    assert_eq!(map.key(0), "a");
    assert_eq!(*map.value(1), 5);
    assert_eq!(map.count("b"), 5);
    assert_eq!(map.count("c"), 0);
    assert_eq!(map.remove("a"), Some(1));
    assert_eq!(map.remove("a"), None);
    assert!(map.get("a").is_none());
    assert_eq!(map.copy().into_entries(), vec![("b".to_string(), 5)]);
}

#[test]
fn values_can_be_removed_from_a_map() {
    let mut map: TextMap<String> = TextMap::new();
    map.insert("order-1".to_string(), "list-1".to_string());
    map.insert("order-2".to_string(), "list-2".to_string());
    map.insert("order-3".to_string(), "list-1".to_string());
    map.remove_values("list-1");
    assert_eq!(map.len(), 1);
    assert_eq!(map.get("order-2").map(String::as_str), Some("list-2"));
}
