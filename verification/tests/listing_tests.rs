use nextest_runner::listing::parse_test_list;

#[test]
fn parse_simple_listing() {
    let names = parse_test_list("alpha: test\nbeta: test\n").unwrap();
    assert_eq!(names, vec!["alpha".to_string(), "beta".to_string()]);
}

#[test]
fn parse_final_line_needs_no_newline() {
    let names = parse_test_list("alpha: test\nbeta: test").unwrap();
    assert_eq!(names, vec!["alpha".to_string(), "beta".to_string()]);
}

#[test]
fn parse_empty_output_is_empty_listing() {
    let names = parse_test_list("").unwrap();
    assert_eq!(names, Vec::<String>::new());
}

#[test]
fn parse_skips_blank_lines() {
    let names = parse_test_list("\nalpha: test\n\n\nbeta: test\n").unwrap();
    assert_eq!(names, vec!["alpha".to_string(), "beta".to_string()]);
}

#[test]
fn parse_keeps_name_punctuation() {
    let names = parse_test_list("mod::sub::case_1: test\n").unwrap();
    assert_eq!(names, vec!["mod::sub::case_1".to_string()]);
}

#[test]
fn parse_rejects_line_without_suffix() {
    assert!(parse_test_list("alpha: test\ngarbage\n").is_none());
}

#[test]
fn parse_rejects_empty_name() {
    assert!(parse_test_list(": test\n").is_none());
}

#[test]
fn parse_rejects_wrong_suffix() {
    assert!(parse_test_list("alpha: tests\n").is_none());
}
