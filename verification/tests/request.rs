use neo::request::{parse_request, request_from_line, Request};
use neo::response::{Response, ResponseStatus};

#[test]
fn request_keeps_key_and_arguments() {
    let request = Request::new("cp".to_string(), vec!["a".to_string(), "b".to_string()]);
    assert_eq!(request.get_key(), "cp");
    assert_eq!(request.get_args(), &vec!["a".to_string(), "b".to_string()]);
    let copy = request.clone();
    assert_eq!(copy.get_key(), "cp");
    assert_eq!(copy.get_args(), request.get_args());
    let (key, args) = request.into_parts();
    assert_eq!(key, "cp");
    assert_eq!(args, vec!["a", "b"]);
}

#[test]
fn parse_takes_first_word_as_key() {
    let request = parse_request("echo hello world").unwrap();
    assert_eq!(request.get_key(), "echo");
    assert_eq!(request.get_args(), &vec!["hello".to_string(), "world".to_string()]);
    let request = parse_request("   ls").unwrap();
    assert_eq!(request.get_key(), "ls");
    assert!(request.get_args().is_empty());
}

#[test]
fn parse_of_no_word_is_no_request() {
    assert!(parse_request("").is_none());
    assert!(parse_request("  \t\r\n").is_none());
}

#[test]
fn blank_line_stands_for_no_request() {
    assert!(request_from_line("").is_none());
    assert!(request_from_line(" ").is_none());
    assert!(request_from_line("\t \n").is_none());
    assert!(request_from_line("\u{a0}\u{3000}").is_none());
    assert!(request_from_line(" \u{2003}").is_none());
}

#[test]
fn line_is_trimmed_before_it_is_split() {
    let request = request_from_line("ls -l\u{3000}").unwrap();
    assert_eq!(request.get_key(), "ls");
    assert_eq!(request.get_args(), &vec!["-l".to_string()]);
    let request = request_from_line("a\u{3000}b  ").unwrap();
    assert_eq!(request.get_key(), "a\u{3000}b");
    assert!(request.get_args().is_empty());
    let request = request_from_line("\u{a0} x").unwrap();
    assert_eq!(request.get_key(), "\u{a0}");
    assert_eq!(request.get_args(), &vec!["x".to_string()]);
}

#[test]
fn response_carries_its_status() {
    assert_eq!(Response::new(ResponseStatus::Success).get_status(), ResponseStatus::Success);
    assert_eq!(Response::new(ResponseStatus::Error).get_status(), ResponseStatus::Error);
    let response = Response::new(ResponseStatus::Error);
    assert_eq!(response.clone().get_status(), ResponseStatus::Error);
}
