use record_browser::config::resolve_config;

fn lines(xs: &[&str]) -> Vec<String> {
    xs.iter().map(|s| s.to_string()).collect()
}

#[test]
fn resolve_applies_defaults_on_empty_input() {
    let d = resolve_config(&lines(&[]));
    assert_eq!(d.host, "localhost");
    assert_eq!(d.user, "");
    assert_eq!(d.password, "");
    assert_eq!(d.database, "");
}

#[test]
fn resolve_reads_present_keys_and_defaults_absent_ones() {
    let d = resolve_config(&lines(&["host=db1", "user=alice"]));
    assert_eq!(d.host, "db1");
    assert_eq!(d.user, "alice");
    assert_eq!(d.password, "");
    assert_eq!(d.database, "");
}

#[test]
fn resolve_takes_the_last_occurrence_of_a_key() {
    let d = resolve_config(&lines(&["host=first", "user=u1", "host=second"]));
    assert_eq!(d.host, "second");
    assert_eq!(d.user, "u1");
}

#[test]
fn resolve_trims_keys_and_values() {
    let d = resolve_config(&lines(&["  host =  db2  ", "\tuser\t=\tbob\t"]));
    assert_eq!(d.host, "db2");
    assert_eq!(d.user, "bob");
}

#[test]
fn resolve_ignores_sections_blanks_and_malformed_lines() {
    let d = resolve_config(&lines(&[
        "[credentials]",
        "",
        "   ",
        "this line has no separator",
        "host=db3",
        "[another section]",
    ]));
    assert_eq!(d.host, "db3");
    assert_eq!(d.user, "");
}

#[test]
fn resolve_splits_on_the_first_separator_only() {
    let d = resolve_config(&lines(&["password=a=b=c"]));
    assert_eq!(d.password, "a=b=c");
}

#[test]
fn resolve_recognizes_all_four_keys() {
    let d = resolve_config(&lines(&[
        "host=h",
        "user=u",
        "password=pw",
        "dbname=crm",
    ]));
    assert_eq!(d.host, "h");
    assert_eq!(d.user, "u");
    assert_eq!(d.password, "pw");
    assert_eq!(d.database, "crm");
}
