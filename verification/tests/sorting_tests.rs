use stim::app::{holds_term, SortState};
use stim::sorting::sort_by_keys;

fn keys_of(list: &[&str]) -> Vec<String> {
    list.iter().map(|k| k.to_string()).collect()
}

#[test]
fn items_follow_their_keys_upwards() {
    let mut items = vec![10, 20, 30, 40, 50];
    let mut keys = keys_of(&["pear", "apple", "fig", "apple", "kiwi"]);
    sort_by_keys(&mut items, &mut keys, SortState::AZ);
    assert_eq!(items, vec![20, 40, 30, 50, 10]);
    assert_eq!(keys, keys_of(&["apple", "apple", "fig", "kiwi", "pear"]));
}

#[test]
fn items_follow_their_keys_downwards() {
    let mut items = vec![10, 20, 30, 40, 50];
    let mut keys = keys_of(&["pear", "apple", "fig", "apple", "kiwi"]);
    sort_by_keys(&mut items, &mut keys, SortState::ZA);
    assert_eq!(items, vec![10, 50, 30, 20, 40]);
    assert_eq!(keys, keys_of(&["pear", "kiwi", "fig", "apple", "apple"]));
}

#[test]
fn a_prefix_comes_first() {
    let mut items = vec!['a', 'b', 'c', 'd'];
    let mut keys = keys_of(&["abc", "", "ab", "abd"]);
    sort_by_keys(&mut items, &mut keys, SortState::AZ);
    assert_eq!(items, vec!['b', 'c', 'a', 'd']);
}

#[test]
fn upper_case_comes_before_lower_case() {
    let mut items = vec![1, 2, 3];
    let mut keys = keys_of(&["b", "a", "B"]);
    sort_by_keys(&mut items, &mut keys, SortState::AZ);
    assert_eq!(items, vec![3, 2, 1]);
}

#[test]
fn lists_of_different_length_are_left_alone() {
    let mut items = vec![3, 1, 2];
    let mut keys = keys_of(&["c", "a"]);
    sort_by_keys(&mut items, &mut keys, SortState::AZ);
    assert_eq!(items, vec![3, 1, 2]);
    assert_eq!(keys, keys_of(&["c", "a"]));
}

#[test]
fn empty_and_single_lists_stay() {
    let mut items: Vec<u8> = Vec::new();
    let mut keys: Vec<String> = Vec::new();
    sort_by_keys(&mut items, &mut keys, SortState::ZA);
    assert!(items.is_empty());
    let mut items = vec![7];
    let mut keys = keys_of(&["x"]);
    sort_by_keys(&mut items, &mut keys, SortState::ZA);
    assert_eq!(items, vec![7]);
}

#[test]
fn term_is_looked_for_in_title_and_artist() {
    assert!(holds_term("alpha", "zed", "al"));
    assert!(holds_term("alpha", "zed", "ze"));
    assert!(holds_term("alpha", "zed", "pha"));
    assert!(holds_term("alpha", "zed", "alpha"));
    assert!(holds_term("alpha", "zed", ""));
    assert!(holds_term("", "", ""));
    assert!(!holds_term("alpha", "zed", "alphaz"));
    assert!(!holds_term("alpha", "zed", "ah"));
    assert!(!holds_term("Alpha", "zed", "al"));
    assert!(!holds_term("", "", "a"));
    assert!(holds_term("caf\u{e9} noir", "x", "\u{e9} n"));
}
