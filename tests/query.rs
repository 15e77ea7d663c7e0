use doodle::parse_url_query_string;

#[test]
fn finds_single_key() {
    assert_eq!(parse_url_query_string("?RUST_LOG=info", "RUST_LOG"), Some("info"));
}

#[test]
fn finds_later_key() {
    assert_eq!(parse_url_query_string("?a=1&RUST_LOG=warn&b=2", "RUST_LOG"), Some("warn"));
}

#[test]
fn first_match_wins() {
    assert_eq!(parse_url_query_string("?k=1&k=2", "k"), Some("1"));
}

#[test]
fn needs_question_mark() {
    assert_eq!(parse_url_query_string("RUST_LOG=info", "RUST_LOG"), None);
    assert_eq!(parse_url_query_string("", "RUST_LOG"), None);
}

#[test]
fn bare_question_mark() {
    assert_eq!(parse_url_query_string("?", "RUST_LOG"), None);
}

#[test]
fn pair_without_equals_ends_search() {
    assert_eq!(parse_url_query_string("?flag&RUST_LOG=x", "RUST_LOG"), None);
}

#[test]
fn value_stops_at_second_equals() {
    assert_eq!(parse_url_query_string("?k=a=b", "k"), Some("a"));
}

#[test]
fn empty_value() {
    assert_eq!(parse_url_query_string("?k=&x=1", "k"), Some(""));
}

#[test]
fn missing_key() {
    assert_eq!(parse_url_query_string("?a=1&b=2", "c"), None);
}

#[test]
fn key_must_match_whole() {
    assert_eq!(parse_url_query_string("?RUST=1&RUST_LOG=debug", "RUST_LOG"), Some("debug"));
    assert_eq!(parse_url_query_string("?RUST_LOGX=1", "RUST_LOG"), None);
}

#[test]
fn non_ascii_value() {
    assert_eq!(parse_url_query_string("?név=érték", "név"), Some("érték"));
}
