use devenv_controller::labels::Labels;

#[test]
fn insert_then_get() {
    let mut labels = Labels::new();
    assert_eq!(labels.get("a"), None);
    labels.insert("a".to_string(), "1".to_string());
    labels.insert("b".to_string(), "2".to_string());
    assert_eq!(labels.get("a").map(|v| v.as_str()), Some("1"));
    assert_eq!(labels.get("b").map(|v| v.as_str()), Some("2"));
    assert_eq!(labels.get("c"), None);
}

#[test]
fn insert_replaces_the_value() {
    let mut labels = Labels::new();
    labels.insert("a".to_string(), "1".to_string());
    labels.insert("a".to_string(), "2".to_string());
    assert_eq!(labels.get("a").map(|v| v.as_str()), Some("2"));
    assert_eq!(labels.entries().len(), 1);
}

#[test]
fn from_pairs_keeps_the_last_value() {
    let labels = Labels::from_pairs(vec![
        ("x".to_string(), "1".to_string()),
        ("y".to_string(), "2".to_string()),
        ("x".to_string(), "3".to_string()),
    ]);
    assert_eq!(labels.entries().len(), 2);
    assert_eq!(labels.get("x").map(|v| v.as_str()), Some("3"));
    assert_eq!(labels.get("y").map(|v| v.as_str()), Some("2"));
}
