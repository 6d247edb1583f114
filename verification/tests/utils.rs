use rdf_trig::utils::{write_escaped_literal, write_escaped_local_name};

#[test]
fn test_escape_local_one_char() {
    let mut buf = vec![];
    write_escaped_local_name(&mut buf, "myweird*prefix");

    assert_eq!(String::from_utf8(buf).unwrap(), String::from(r"myweird\*prefix"))
}

#[test]
fn test_escape_local_multiple_chars() {
    let mut buf = vec![];
    write_escaped_local_name(&mut buf, "my/weird*prefix");

    assert_eq!(String::from_utf8(buf).unwrap(), String::from(r"my\/weird\*prefix"))
}

#[test]
fn test_escape_local_no_chars() {
    let mut buf = vec![];
    write_escaped_local_name(&mut buf, "myprefix");

    assert_eq!(String::from_utf8(buf).unwrap(), String::from(r"myprefix"))
}

#[test]
fn test_escape_literal_one_char() {
    let mut buf = vec![];
    write_escaped_literal(&mut buf, "my broken\tliteral\x08");

    assert_eq!(String::from_utf8(buf).unwrap(), String::from(r"my broken\tliteral\b"))
}

#[test]
fn test_escape_literal_multiple_chars() {
    let mut buf = vec![];
    write_escaped_literal(&mut buf, "my\r\nbroken\tliteral");

    assert_eq!(String::from_utf8(buf).unwrap(), String::from(r"my\r\nbroken\tliteral"))
}

#[test]
fn test_escape_literal_no_chars() {
    let mut buf = vec![];
    write_escaped_literal(&mut buf, "myliteral");

    assert_eq!(String::from_utf8(buf).unwrap(), String::from(r"myliteral"))
}

#[test]
fn every_local_name_special_is_escaped() {
    let mut buf = vec![];
    write_escaped_local_name(&mut buf, "~.-!$&'()*+,;=/?#@%_a");
    assert_eq!(
        String::from_utf8(buf).unwrap(),
        r"\~\.\-\!\$\&\'\(\)\*\+\,\;\=\/\?\#\@\%\_a"
    );
}

#[test]
fn every_literal_special_is_escaped() {
    let mut buf = vec![];
    write_escaped_literal(&mut buf, "\x08\x0c\t\n\r\"'\\é");
    assert_eq!(String::from_utf8(buf).unwrap(), "\\b\\f\\t\\n\\r\\\"\\'\\\\é");
}

#[test]
fn escaping_appends_to_existing_output() {
    let mut buf = b"<".to_vec();
    write_escaped_literal(&mut buf, "a\"b");
    write_escaped_local_name(&mut buf, "c.d");
    assert_eq!(String::from_utf8(buf).unwrap(), "<a\\\"bc\\.d");
}
