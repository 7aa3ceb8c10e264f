use growth_engine::labels::csv_escape;

#[test]
fn test_csv_escape_safe_fields() {
    assert_eq!(csv_escape("NORMAL"), "NORMAL");
    assert_eq!(csv_escape("2026-06-19T10:00:00Z"), "2026-06-19T10:00:00Z");
}

#[test]
fn test_csv_escape_comma() {
    assert_eq!(csv_escape("ACE,ETH"), "\"ACE,ETH\"");
}

#[test]
fn test_csv_escape_quote() {
    assert_eq!(csv_escape("coin \"ACE\""), "\"coin \"\"ACE\"\"\"");
}

#[test]
fn csv_escape_newline_and_empty() {
    assert_eq!(csv_escape("a\nb"), "\"a\nb\"");
    assert_eq!(csv_escape(""), "");
    assert_eq!(csv_escape("\""), "\"\"\"\"");
}

/// Read one CSV field back the way an RFC 4180 reader does.
fn read_field(t: &str) -> String {
    if t.len() >= 2 && t.starts_with('"') && t.ends_with('"') {
        t[1..t.len() - 1].replace("\"\"", "\"")
    } else {
        t.to_string()
    }
}

#[test]
fn escaped_fields_read_back() {
    for s in ["plain", "a,b", "say \"hi\"", "\"", "\"\"", "line\nbreak", "", "x\"y,z"] {
        assert_eq!(read_field(&csv_escape(s)), s);
    }
}
