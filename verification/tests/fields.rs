use counter_gate::config::MyConfig;
use counter_gate::fields::FieldList;

#[test]
fn config_keeps_its_text() {
    let config = MyConfig::new("My Config".to_string());
    assert_eq!(config.text(), "My Config");
}

#[test]
fn empty_list_has_no_entries() {
    let l = FieldList::new();
    assert_eq!(l.len(), 0);
    assert_eq!(l.find(&"anything".to_string()), None);
}

#[test]
fn push_keeps_arrival_order() {
    let mut l = FieldList::new();
    l.push("b".to_string(), "2".to_string());
    l.push("a".to_string(), "1".to_string());
    assert_eq!(l.len(), 2);
    assert_eq!(l.name_at(0), "b");
    assert_eq!(l.value_at(0), "2");
    assert_eq!(l.name_at(1), "a");
    assert_eq!(l.value_at(1), "1");
}

#[test]
fn find_returns_first_of_duplicates() {
    // Duplicate names are kept as a multi-value list; lookup answers with
    // the first occurrence.
    let mut l = FieldList::new();
    l.push("k".to_string(), "one".to_string());
    l.push("other".to_string(), "x".to_string());
    l.push("k".to_string(), "two".to_string());
    assert_eq!(l.len(), 3);
    assert_eq!(l.find(&"k".to_string()), Some(&"one".to_string()));
    assert_eq!(l.find(&"other".to_string()), Some(&"x".to_string()));
    assert_eq!(l.find(&"missing".to_string()), None);
}
