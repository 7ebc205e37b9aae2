use drop_core::collection::Collection;

#[test]
fn new_collection_is_empty() {
    let c = Collection::new();
    assert_eq!(c.len(), 0);
    assert_eq!(c.iter().count(), 0);
    assert_eq!(Collection::default().len(), 0);
}

#[test]
fn add_file_appends_in_order() {
    let mut c = Collection::new();
    c.add_file("a.txt".to_string(), "hash_a".to_string());
    c.add_file("b.txt".to_string(), "hash_b".to_string());
    c.add_file("a.txt".to_string(), "hash_c".to_string());
    assert_eq!(c.len(), 3);
    let pairs: Vec<(String, String)> = c.iter().cloned().collect();
    assert_eq!(
        pairs,
        vec![
            ("a.txt".to_string(), "hash_a".to_string()),
            ("b.txt".to_string(), "hash_b".to_string()),
            ("a.txt".to_string(), "hash_c".to_string()),
        ]
    );
    assert_eq!(c.get(1), &("b.txt".to_string(), "hash_b".to_string()));
}

#[test]
fn walk_is_in_insertion_order_and_leaves_the_collection_unchanged() {
    let mut c = Collection::new();
    c.add_file("b".to_string(), "h2".to_string());
    c.add_file("a".to_string(), "h1".to_string());
    let expected = vec![("b".to_string(), "h2".to_string()), ("a".to_string(), "h1".to_string())];
    assert_eq!(c.iter().cloned().collect::<Vec<_>>(), expected);
    assert_eq!(c.iter().cloned().collect::<Vec<_>>(), expected);
    assert_eq!(c.len(), 2);
}
