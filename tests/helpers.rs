use bytestashy::errors::ByteStashyError;
use bytestashy::listing::{paginate, truncate_description};
use bytestashy::models::{Fragment, Snippet};
use bytestashy::validate::{validate_api_url, validate_files, PathKind};

#[test]
fn api_url_must_be_http_with_a_host() {
    assert!(validate_api_url("https://example.com").is_ok());
    assert!(validate_api_url("http://localhost:5000/").is_ok());
    match validate_api_url("ftp://example.com") {
        Err(ByteStashyError::InvalidInput(m)) => assert_eq!(m, "URL must use http or https scheme"),
        _ => panic!("expected invalid input"),
    }
    assert!(matches!(
        validate_api_url("not a url"),
        Err(ByteStashyError::InvalidInput(_))
    ));
}

#[test]
fn file_checks_name_the_first_bad_path() {
    match validate_files(&vec![], &vec![]) {
        Err(ByteStashyError::InvalidInput(m)) => assert_eq!(m, "Provide at least one file"),
        _ => panic!("expected invalid input"),
    }
    let files = vec!["a".to_string(), "/nonexistent/file.txt".to_string(), "d".to_string()];
    let kinds = vec![PathKind::File, PathKind::Missing, PathKind::NotAFile];
    match validate_files(&files, &kinds) {
        Err(ByteStashyError::InvalidInput(m)) => {
            assert_eq!(m, "File does not exist: /nonexistent/file.txt")
        }
        _ => panic!("expected invalid input"),
    }
    match validate_files(&vec!["d".to_string()], &vec![PathKind::NotAFile]) {
        Err(ByteStashyError::InvalidInput(m)) => assert_eq!(m, "Path is not a file: d"),
        _ => panic!("expected invalid input"),
    }
    assert!(validate_files(&vec!["a".to_string()], &vec![PathKind::File]).is_ok());
}

#[test]
fn pages_of_a_list() {
    let p = paginate(25, None, Some(2), false);
    assert_eq!((p.start, p.end, p.page_index, p.page_count), (10, 20, 2, 3));
    let p = paginate(25, None, Some(3), false);
    assert_eq!((p.start, p.end), (20, 25));
    let p = paginate(25, Some(100), None, false);
    assert_eq!((p.start, p.end, p.page_index, p.page_count), (0, 25, 1, 1));
    let p = paginate(25, None, Some(0), false);
    assert_eq!(p.page_index, 1);
    let p = paginate(25, None, Some(9), false);
    assert_eq!((p.start, p.end), (25, 25));
    let p = paginate(25, Some(5), Some(2), true);
    assert_eq!((p.start, p.end, p.page_count), (0, 25, 5));
    let p = paginate(0, None, None, false);
    assert_eq!((p.start, p.end, p.page_count), (0, 0, 0));
    let p = paginate(usize::MAX, Some(usize::MAX), Some(usize::MAX), false);
    assert_eq!((p.start, p.end), (usize::MAX, usize::MAX));
}

#[test]
fn long_descriptions_are_cut() {
    let long = "x".repeat(61);
    assert_eq!(truncate_description(&long), format!("{}…", "x".repeat(60)));
    let exact = "é".repeat(60);
    assert_eq!(truncate_description(&exact), exact);
    assert_eq!(truncate_description(""), "");
}

#[test]
fn categories_are_comma_joined() {
    let mut s = Snippet {
        id: 42,
        title: "Test Snippet".to_string(),
        description: String::new(),
        categories: vec!["rust".to_string(), "test".to_string()],
        fragments: vec![Fragment {
            id: 1,
            file_name: "main.rs".to_string(),
            code: "fn main() {}".to_string(),
            language: "rust".to_string(),
            position: 0,
        }],
        updated_at: "2023-01-01T00:00:00Z".to_string(),
        share_count: 5,
    };
    assert_eq!(s.categories_joined(), "rust,test");
    s.categories = vec![];
    assert_eq!(s.categories_joined(), "");
    s.categories = vec!["one".to_string()];
    assert_eq!(s.categories_joined(), "one");
}

#[test]
fn error_text_and_exit_codes() {
    let e = ByteStashyError::api(503, "busy");
    assert_eq!(e.to_text(), "API error: HTTP 503 - busy");
    assert_eq!(e.exit_code(), 3);
    assert_eq!(ByteStashyError::auth("no").exit_code(), 1);
    assert_eq!(ByteStashyError::invalid_input("bad").exit_code(), 2);
    assert_eq!(ByteStashyError::invalid_input("bad").to_text(), "Invalid input: bad");
    assert_eq!(ByteStashyError::NotFound.exit_code(), 1);
    let f = ByteStashyError::file_operation("a.py", "denied");
    assert_eq!(f.to_text(), "File operation failed: a.py - denied");
}
