use custom_type::error::TypeError;

#[test]
fn test_parse_error_display() {
    let error = TypeError::ParseError("Invalid input".to_string());
    assert_eq!(error.to_string(), "Invalid input");
}

#[test]
fn errors_compare_by_message() {
    let a = TypeError::ParseError("one".to_string());
    let b = TypeError::ParseError("one".to_string());
    let c = TypeError::ParseError("two".to_string());
    assert_eq!(a, b);
    assert_ne!(a, c);
    assert_eq!(a.clone(), a);
}

#[test]
fn error_is_reachable_from_the_crate_root() {
    let error = custom_type::TypeError::ParseError(String::new());
    assert_eq!(error.to_string(), "");
}
