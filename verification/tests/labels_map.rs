use exposed_app_operator::labels::Labels;

#[test]
fn new_labels_are_empty() {
    let labels = Labels::new();
    assert_eq!(labels.len(), 0);
    assert!(labels.get("a").is_none());
    assert!(!labels.contains_key("a"));
    assert!(labels.to_pairs().is_empty());
}

#[test]
fn single_holds_one_entry() {
    let labels = Labels::single("app.kubernetes.io/instance", "web-deployment");
    assert_eq!(labels.len(), 1);
    assert_eq!(labels.get("app.kubernetes.io/instance").unwrap(), "web-deployment");
    assert!(labels.get("app.kubernetes.io/name").is_none());
}

#[test]
fn insert_adds_new_keys() {
    let mut labels = Labels::new();
    labels.insert("a", "1");
    labels.insert("b", "2");
    assert_eq!(labels.len(), 2);
    assert_eq!(labels.get("a").unwrap(), "1");
    assert_eq!(labels.get("b").unwrap(), "2");
    assert!(labels.contains_key("a"));
    assert!(!labels.contains_key("c"));
}

#[test]
fn insert_replaces_the_value_of_a_key() {
    let mut labels = Labels::new();
    labels.insert("a", "1");
    labels.insert("b", "2");
    labels.insert("a", "3");
    assert_eq!(labels.len(), 2);
    assert_eq!(labels.get("a").unwrap(), "3");
    assert_eq!(labels.get("b").unwrap(), "2");
}

#[test]
fn to_pairs_lists_each_key_once() {
    let mut labels = Labels::new();
    labels.insert("b", "2");
    labels.insert("a", "1");
    labels.insert("b", "4");
    let mut pairs = labels.to_pairs();
    pairs.sort();
    assert_eq!(
        pairs,
        vec![("a".to_string(), "1".to_string()), ("b".to_string(), "4".to_string())]
    );
}

#[test]
fn clone_keeps_the_entries_and_is_independent() {
    let mut labels = Labels::single("a", "1");
    let copy = labels.clone();
    labels.insert("a", "2");
    assert_eq!(copy.get("a").unwrap(), "1");
    assert_eq!(labels.get("a").unwrap(), "2");
    assert_eq!(copy.len(), 1);
}
