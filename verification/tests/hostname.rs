use switch_relay::hostname::extract_hostname;

#[test]
fn hostname_from_set_statement() {
    let text = "set version 20.4R3\nset system host-name SW-10-0-0-5-01\nset system services ssh\n";
    assert_eq!(extract_hostname(text), "SW-10-0-0-5-01");
}

#[test]
fn hostname_from_single_line() {
    assert_eq!(extract_hostname("set system host-name SW-10-0-0-5-01"), "SW-10-0-0-5-01");
}

#[test]
fn hostname_unknown_without_line() {
    assert_eq!(extract_hostname("set version 20.4R3\nset system services ssh\n"), "Unknown");
}

#[test]
fn hostname_unknown_in_empty_text() {
    assert_eq!(extract_hostname(""), "Unknown");
    assert_eq!(extract_hostname("\n\n\n"), "Unknown");
}

#[test]
fn hostname_statement_terminator_is_stripped() {
    assert_eq!(extract_hostname("system {\n    host-name core-sw;\n    hostname edge-01;\n}\n"), "edge-01");
    assert_eq!(extract_hostname("hostname edge-01;;"), "edge-01");
}

#[test]
fn hostname_keeps_semicolons_inside_the_word() {
    assert_eq!(extract_hostname("hostname a;b;"), "a;b");
}

#[test]
fn hostname_first_match_wins() {
    let text = "hostname first\nset system host-name second\nhostname third\n";
    assert_eq!(extract_hostname(text), "first");
}

#[test]
fn hostname_ignores_white_space_after_the_name() {
    assert_eq!(extract_hostname("set system host-name SW-01   \t\r\nnext line"), "SW-01");
    assert_eq!(extract_hostname("hostname\u{00A0}SW-02\u{3000}"), "SW-02");
}

#[test]
fn hostname_line_with_the_word_alone_gives_the_word() {
    assert_eq!(extract_hostname("hostname"), "hostname");
    assert_eq!(extract_hostname("  set system host-name  "), "host-name");
}

#[test]
fn hostname_of_a_lone_terminator_is_empty() {
    assert_eq!(extract_hostname("hostname ;"), "");
}

#[test]
fn hostname_marker_split_over_lines_does_not_count() {
    assert_eq!(extract_hostname("set system host\n-name SW-01\nhost\nname\n"), "Unknown");
}

#[test]
fn hostname_with_letters_beyond_ascii() {
    assert_eq!(extract_hostname("# équipement\nset system host-name commutateur-é-01\n"), "commutateur-é-01");
}
