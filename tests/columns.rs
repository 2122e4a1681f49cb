use traindaily::columns::{parse_sets, serialize_sets};

#[test]
fn sets_are_written_as_compact_arrays() {
    assert_eq!(serialize_sets(&Some(vec![10, 8])), Some("[10,8]".to_string()));
    assert_eq!(serialize_sets(&Some(vec![-3, 0, 2147483647])), Some("[-3,0,2147483647]".to_string()));
    assert_eq!(serialize_sets(&Some(vec![])), Some("[]".to_string()));
    assert_eq!(serialize_sets(&None), None);
}

#[test]
fn sets_are_read_back() {
    assert_eq!(parse_sets(Some("[20,15]".to_string())), Some(vec![20, 15]));
    assert_eq!(parse_sets(Some(" [20, 15] ".to_string())), Some(vec![20, 15]));
    assert_eq!(parse_sets(Some("not json".to_string())), None);
    assert_eq!(parse_sets(Some("[1.5]".to_string())), None);
    assert_eq!(parse_sets(None), None);
    let written = serialize_sets(&Some(vec![7, -1])).unwrap();
    assert_eq!(parse_sets(Some(written)), Some(vec![7, -1]));
}
