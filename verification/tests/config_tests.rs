use flash::config::parse_config;

#[test]
fn exec_only_yields_bare_descriptor() {
    let d = parse_config("exec=run.sh");
    assert_eq!(d.exec_command, Some("run.sh".to_string()));
    assert_eq!(d.name, None);
    assert_eq!(d.desc, None);
    assert_eq!(d.clear, false);
}

#[test]
fn clear_without_exec_is_parsed() {
    let d = parse_config("clear=true");
    assert_eq!(d.exec_command, None);
    assert_eq!(d.name, None);
    assert_eq!(d.desc, None);
    assert_eq!(d.clear, true);
}

#[test]
fn full_config_is_parsed() {
    let d = parse_config("name=Foo\ndesc=A tool\nexec=echo hi\nclear=true");
    assert_eq!(d.name, Some("Foo".to_string()));
    assert_eq!(d.desc, Some("A tool".to_string()));
    assert_eq!(d.exec_command, Some("echo hi".to_string()));
    assert_eq!(d.clear, true);
}

#[test]
fn last_repeated_key_wins() {
    let d = parse_config("exec=first.sh\nname=One\nexec=second.sh\nname=Two");
    assert_eq!(d.exec_command, Some("second.sh".to_string()));
    assert_eq!(d.name, Some("Two".to_string()));
}

#[test]
fn unrecognized_lines_are_ignored() {
    let d = parse_config("author=Someone\n\nexec=make install\n# a note");
    assert_eq!(d.exec_command, Some("make install".to_string()));
    assert_eq!(d.name, None);
    assert_eq!(d.desc, None);
    assert_eq!(d.clear, false);
}

#[test]
fn empty_text_yields_empty_descriptor() {
    let d = parse_config("");
    assert_eq!(d.exec_command, None);
    assert_eq!(d.name, None);
    assert_eq!(d.desc, None);
    assert_eq!(d.clear, false);
}

#[test]
fn carriage_returns_are_trimmed() {
    let d = parse_config("name=Foo\r\nexec=run.sh\r\n");
    assert_eq!(d.name, Some("Foo".to_string()));
    assert_eq!(d.exec_command, Some("run.sh".to_string()));
}

#[test]
fn value_is_the_rest_of_the_line() {
    let d = parse_config("exec=sh -c 'a = b'\nname=");
    assert_eq!(d.exec_command, Some("sh -c 'a = b'".to_string()));
    assert_eq!(d.name, Some("".to_string()));
}

#[test]
fn clear_matches_by_prefix() {
    let d = parse_config("clear=truely so");
    assert_eq!(d.clear, true);
}

#[test]
fn clear_false_is_not_recognized() {
    let d = parse_config("clear=false");
    assert_eq!(d.clear, false);
}
