use zenyx::input::{parse_command, tokenize};

fn strings(items: &[&str]) -> Vec<String> {
    items.iter().map(|s| s.to_string()).collect()
}

#[test]
fn tokenize_keeps_quoted_words_together() {
    let tokens = tokenize("echo \"hello world\" foo");
    assert_eq!(tokens, strings(&["echo", "hello world", "foo"]));
}

#[test]
fn tokenize_splits_on_any_white_space() {
    assert_eq!(tokenize("a\tb  c\u{a0}d\u{3000}e"), strings(&["a", "b", "c", "d", "e"]));
}

#[test]
fn tokenize_drops_leading_and_trailing_space() {
    assert_eq!(tokenize("   echo   hi   "), strings(&["echo", "hi"]));
}

#[test]
fn tokenize_of_nothing_is_nothing() {
    assert_eq!(tokenize(""), Vec::<String>::new());
    assert_eq!(tokenize("   \t "), Vec::<String>::new());
    assert_eq!(tokenize("\"\""), Vec::<String>::new());
}

#[test]
fn tokenize_lets_either_quote_close_the_other() {
    assert_eq!(tokenize("say \"a b' c"), strings(&["say", "a b", "c"]));
    assert_eq!(tokenize("'x y\" z"), strings(&["x y", "z"]));
}

#[test]
fn tokenize_joins_quoted_and_bare_parts() {
    assert_eq!(tokenize("ab\"c d\"e f"), strings(&["abc de", "f"]));
}

#[test]
fn tokenize_keeps_space_of_an_open_quote() {
    assert_eq!(tokenize("echo \"a b "), strings(&["echo", "a b "]));
}

#[test]
fn tokenize_has_no_escapes() {
    assert_eq!(tokenize("a\\ b \\\"c d\\\""), strings(&["a\\", "b", "\\c d\\"]));
}

#[test]
fn parse_command_splits_at_semicolons_and_line_feeds() {
    assert_eq!(parse_command("echo hi;echo bye").unwrap(), strings(&["echo hi", "echo bye"]));
    assert_eq!(parse_command("a\nb;c").unwrap(), strings(&["a", "b", "c"]));
}

#[test]
fn parse_command_keeps_empty_statements() {
    assert_eq!(parse_command("").unwrap(), strings(&[""]));
    assert_eq!(parse_command(";").unwrap(), strings(&["", ""]));
    assert_eq!(parse_command("a;;b;").unwrap(), strings(&["a", "", "b", ""]));
}

#[test]
fn parse_command_splits_inside_quotes_too() {
    assert_eq!(parse_command("echo \"a;b\"").unwrap(), strings(&["echo \"a", "b\""]));
}

#[test]
fn parse_command_does_not_split_at_a_bar() {
    assert_eq!(parse_command("a|b").unwrap(), strings(&["a|b"]));
}
