use object_resolution::connection::{Connection, Edge, paginate};
use object_resolution::error::Error;
use object_resolution::name_service::NameService;

fn entry(cursor: &str, name: &str) -> Edge<NameService> {
    Edge { cursor: String::from(cursor), node: NameService { name: String::from(name) } }
}

fn five() -> Vec<Edge<NameService>> {
    vec![
        entry("c1", "n1"),
        entry("c2", "n2"),
        entry("c3", "n3"),
        entry("c4", "n4"),
        entry("c5", "n5"),
    ]
}

fn cursors(c: &Connection<NameService>) -> Vec<String> {
    c.edges.iter().map(|e| e.cursor.clone()).collect()
}

#[test]
fn forward_window_limits_and_flags() {
    let page = paginate(five(), Some(2), None, None, None).unwrap();
    assert_eq!(cursors(&page), vec!["c1".to_string(), "c2".to_string()]);
    assert!(!page.has_previous_page);
    assert!(page.has_next_page);
}

#[test]
fn forward_after_cursor_starts_strictly_after() {
    let page = paginate(five(), Some(2), Some(String::from("c2")), None, None).unwrap();
    assert_eq!(cursors(&page), vec!["c3".to_string(), "c4".to_string()]);
    assert!(page.has_previous_page);
    assert!(page.has_next_page);
}

#[test]
fn forward_without_limit_returns_rest() {
    let page = paginate(five(), None, Some(String::from("c3")), None, None).unwrap();
    assert_eq!(cursors(&page), vec!["c4".to_string(), "c5".to_string()]);
    assert!(page.has_previous_page);
    assert!(!page.has_next_page);
}

#[test]
fn forward_first_zero_is_empty() {
    let page = paginate(five(), Some(0), None, None, None).unwrap();
    assert!(page.edges.is_empty());
    assert!(!page.has_previous_page);
    assert!(page.has_next_page);
}

#[test]
fn backward_window_ends_strictly_before() {
    let page = paginate(five(), None, None, Some(2), Some(String::from("c4"))).unwrap();
    assert_eq!(cursors(&page), vec!["c2".to_string(), "c3".to_string()]);
    assert!(page.has_previous_page);
    assert!(page.has_next_page);
}

#[test]
fn backward_without_cursor_takes_tail() {
    let page = paginate(five(), None, None, Some(2), None).unwrap();
    assert_eq!(cursors(&page), vec!["c4".to_string(), "c5".to_string()]);
    assert!(page.has_previous_page);
    assert!(!page.has_next_page);
}

#[test]
fn no_arguments_returns_everything() {
    let page = paginate(five(), None, None, None, None).unwrap();
    assert_eq!(page.edges.len(), 5);
    assert!(!page.has_previous_page);
    assert!(!page.has_next_page);
}

#[test]
fn both_directions_rejected() {
    let r = paginate(five(), Some(1), None, Some(1), None);
    assert_eq!(r, Err(Error::InvalidArgument));
    let r = paginate(
        five(),
        Some(1),
        Some(String::from("c1")),
        Some(1),
        Some(String::from("c4")),
    );
    assert_eq!(r, Err(Error::InvalidArgument));
    let r = paginate(five(), None, Some(String::from("c1")), None, Some(String::from("c4")));
    assert_eq!(r, Err(Error::InvalidArgument));
}

#[test]
fn unknown_after_cursor_selects_empty_window() {
    let page = paginate(five(), Some(2), Some(String::from("zz")), None, None).unwrap();
    assert!(page.edges.is_empty());
    assert!(page.has_previous_page);
    assert!(!page.has_next_page);
}

#[test]
fn replay_returns_identical_page() {
    let a = paginate(five(), Some(3), Some(String::from("c1")), None, None).unwrap();
    let b = paginate(five(), Some(3), Some(String::from("c1")), None, None).unwrap();
    assert_eq!(a, b);
}

#[test]
fn empty_collection_pages_empty() {
    let page = paginate(Vec::<Edge<NameService>>::new(), Some(3), None, None, None).unwrap();
    assert!(page.edges.is_empty());
    assert!(!page.has_previous_page);
    assert!(!page.has_next_page);
}
