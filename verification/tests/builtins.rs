use zenyx::builtins::{alias_entry_text, echo_text, exit_code, help_entry_text, parse_code};

fn strings(items: &[&str]) -> Vec<String> {
    items.iter().map(|s| s.to_string()).collect()
}

#[test]
fn echo_joins_its_arguments_with_spaces() {
    assert_eq!(echo_text(&Some(strings(&["hi"]))), "hi");
    assert_eq!(echo_text(&Some(strings(&["hello world", "foo"]))), "hello world foo");
    assert_eq!(echo_text(&Some(strings(&["a", "", "b"]))), "a  b");
    assert_eq!(echo_text(&Some(Vec::new())), "");
    assert_eq!(echo_text(&None), "");
}

#[test]
fn help_shows_a_command_on_four_lines() {
    assert_eq!(
        help_entry_text("help", "shows help", "none", "type help"),
        "Command: help\n\tDescription: shows help\n\tParameters: none\n\tHelp: type help\n"
    );
}

#[test]
fn help_shows_an_alias_with_an_arrow() {
    assert_eq!(alias_entry_text("cls", "clear"), "\tcls -> clear");
}

#[test]
fn exit_leaves_with_zero_by_default() {
    assert_eq!(exit_code(&None), Some(0));
    assert_eq!(exit_code(&Some(Vec::new())), Some(0));
}

#[test]
fn exit_leaves_with_the_code_it_is_given() {
    assert_eq!(exit_code(&Some(strings(&["3"]))), Some(3));
    assert_eq!(exit_code(&Some(strings(&["-1", "ignored"]))), Some(-1));
    assert_eq!(exit_code(&Some(strings(&["three"]))), None);
}

#[test]
fn parse_code_reads_as_the_standard_library_does() {
    for text in [
        "0", "7", "42", "+42", "-42", "007", "-0", "+0", "2147483647", "-2147483648",
        "2147483648", "-2147483649", "99999999999999999999", "", "+", "-", "--1", "+-1",
        "1 ", " 1", "1_000", "0x10", "1.5", "١٢٣", "12a", "a12",
    ] {
        assert_eq!(parse_code(text), text.parse::<i32>().ok(), "for {:?}", text);
    }
}

#[test]
fn parse_code_knows_the_limits() {
    assert_eq!(parse_code("2147483647"), Some(i32::MAX));
    assert_eq!(parse_code("-2147483648"), Some(i32::MIN));
    assert_eq!(parse_code("2147483648"), None);
    assert_eq!(parse_code("-2147483649"), None);
}
