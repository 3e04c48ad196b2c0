use wfu::{CloneIterDebugMap, DebugMap, FmtAs, FmtBy, RefItemDebugMap};

#[test]
fn test_debug_map() {
    let map = vec![("key1", 1i32), ("key2", 2), ("key3", 3)];

    let proxy_map = map.fmt_as::<DebugMap>();
    let output = proxy_map.to_text().unwrap();
    assert!(output.contains(r#""key1": 1"#));
    assert!(output.contains(r#""key2": 2"#));
    assert!(output.contains(r#""key3": 3"#));

    let map = vec![("key1", 1i32), ("key2", 2), ("key3", 3)];
    let proxy = map.fmt_as::<RefItemDebugMap>();
    assert_eq!(proxy.to_text().unwrap(), r#"{"key1": 1, "key2": 2, "key3": 3}"#);

    let empty_map: Vec<(&str, i32)> = Vec::new();
    let proxy_empty = empty_map.fmt_by(RefItemDebugMap);
    assert_eq!(proxy_empty.to_text().unwrap(), "{}");

    let single_map = vec![("key", 42i32)];
    let proxy_single = single_map.fmt_by(RefItemDebugMap);
    assert_eq!(proxy_single.to_text().unwrap(), r#"{"key": 42}"#);
}

#[test]
fn test_ref_item_debug_map() {
    let map = vec![("key1", 1i32), ("key2", 2), ("key3", 3)];
    let proxy = map.fmt_by(RefItemDebugMap);
    assert_eq!(proxy.to_text().unwrap(), r#"{"key1": 1, "key2": 2, "key3": 3}"#);
}

#[test]
fn test_clone_iter_debug_map() {
    let range: Vec<(String, i32)> = (1..4).map(|i| (format!("key{}", i), i * 10)).collect();
    let proxy = range.fmt_by(CloneIterDebugMap);
    assert_eq!(proxy.to_text().unwrap(), r#"{"key1": 10, "key2": 20, "key3": 30}"#);
}

#[test]
fn test_custom_debug_map() {
    let data = [1i32, 2, 3];

    let binding: Vec<(String, i32)> =
        data.iter().map(|x: &i32| (format!("key{}", x), x * 10)).collect();
    let proxy = binding.fmt_as::<CloneIterDebugMap>();
    assert_eq!(proxy.to_text().unwrap(), r#"{"key1": 10, "key2": 20, "key3": 30}"#);

    let empty_data: Vec<i32> = Vec::new();
    let binding: Vec<(String, i32)> =
        empty_data.iter().map(|x: &i32| (format!("key{}", x), x * 10)).collect();
    let proxy_empty = binding.fmt_as::<CloneIterDebugMap>();
    assert_eq!(proxy_empty.to_text().unwrap(), "{}");
}
