use m2g::{
    failure_report, join_lines, soround_str, strip_blanks, success_report, ConversionError,
};

#[test]
fn soround_str_wraps() {
    assert_eq!(soround_str(String::from("x"), "<p>", "</p>"), "<p>x</p>");
}

#[test]
fn soround_str_of_empty_parts() {
    assert_eq!(soround_str(String::new(), "", ""), "");
    assert_eq!(soround_str(String::new(), "a", "b"), "ab");
    assert_eq!(soround_str(String::from("mid"), "", ""), "mid");
}

#[test]
fn strip_blanks_removes_spaces_and_line_feeds() {
    assert_eq!(strip_blanks(" a b\nc \n"), "abc");
}

#[test]
fn strip_blanks_keeps_tabs_and_carriage_returns() {
    assert_eq!(strip_blanks("a\tb\r\nc"), "a\tb\rc");
}

#[test]
fn strip_blanks_of_nothing() {
    assert_eq!(strip_blanks(""), "");
    assert_eq!(strip_blanks("  \n\n "), "");
}

#[test]
fn strip_blanks_keeps_other_characters() {
    assert_eq!(strip_blanks("\u{e9} \u{4e2d}\u{a0}\n\u{1f600}"), "\u{e9}\u{4e2d}\u{a0}\u{1f600}");
}

#[test]
fn join_lines_of_none_and_one() {
    assert_eq!(join_lines(&Vec::new()), "");
    assert_eq!(join_lines(&vec![String::from("only")]), "only");
}

#[test]
fn join_lines_of_several() {
    let lines = vec![String::from("a"), String::from("b"), String::from("c")];
    assert_eq!(join_lines(&lines), "a\nb\nc");
}

#[test]
fn join_lines_keeps_empty_lines() {
    let lines = vec![String::new(), String::from("b"), String::new()];
    assert_eq!(join_lines(&lines), "\nb\n");
}

#[test]
fn message_of_each_error() {
    assert_eq!(
        ConversionError::Parse(String::from("unexpected end of stream")).message(),
        "Error parsing XML: unexpected end of stream"
    );
    assert_eq!(
        ConversionError::Structure(String::from("plugin")).message(),
        "The provided string is not a correct maven dependency: <plugin>"
    );
    assert_eq!(
        ConversionError::MissingField(String::from("groupId")).message(),
        "Missing groupId!"
    );
    assert_eq!(
        ConversionError::MissingField(String::from("artifactId")).message(),
        "Missing artifactId!"
    );
}

#[test]
fn success_report_indents_each_line() {
    assert_eq!(success_report("a\nb\nc"), "\nfor gradle: \n\ta\n\tb\n\tc");
}

#[test]
fn success_report_of_one_line_and_of_none() {
    assert_eq!(success_report("a"), "\nfor gradle: \n\ta");
    assert_eq!(success_report(""), "\nfor gradle: \n\t");
}

#[test]
fn failure_report_holds_the_message() {
    assert_eq!(
        failure_report(&ConversionError::Parse(String::from("unknown token at 1:8"))),
        "\nError: \n\tError parsing XML: unknown token at 1:8"
    );
    assert_eq!(
        failure_report(&ConversionError::MissingField(String::from("groupId"))),
        "\nError: \n\tMissing groupId!"
    );
}
