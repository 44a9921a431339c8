use rkiauh::config::KiauhConfig;

#[test]
fn parses_keys_and_values() {
    let c = KiauhConfig::parse("# comment\n\nport = 7125\n  host=printer.local  \nnoequals\n");
    assert_eq!(c.len(), 2);
    assert_eq!(c.get("port"), Some("7125".to_string()));
    assert_eq!(c.get("host"), Some("printer.local".to_string()));
    assert_eq!(c.get("noequals"), None);
    assert_eq!(c.get("# comment"), None);
}

#[test]
fn later_lines_override() {
    let c = KiauhConfig::parse("a=1\nb=2\na=3");
    assert_eq!(c.len(), 2);
    assert_eq!(c.get("a"), Some("3".to_string()));
    assert_eq!(c.get("b"), Some("2".to_string()));
}

#[test]
fn splits_at_first_equals_sign() {
    let c = KiauhConfig::parse("url = http://x/?a=b\n =empty key\nk=\n");
    assert_eq!(c.get("url"), Some("http://x/?a=b".to_string()));
    assert_eq!(c.get(""), Some("empty key".to_string()));
    assert_eq!(c.get("k"), Some("".to_string()));
}

#[test]
fn indented_comment_is_a_comment() {
    let c = KiauhConfig::parse("   # a=b\r\n");
    assert_eq!(c.len(), 0);
}

#[test]
fn unreadable_file_gives_no_settings() {
    let c = KiauhConfig::from_file_text(None);
    assert_eq!(c.len(), 0);
    let d = KiauhConfig::from_file_text(Some("x=1".to_string()));
    assert_eq!(d.get("x"), Some("1".to_string()));
}

#[test]
fn second_file_overrides_first() {
    let a = "x=1\ny=2\n";
    let b = "y=3\nz=4";
    let both = KiauhConfig::parse(&format!("{}{}", a, b));
    assert_eq!(both.get("x"), Some("1".to_string()));
    assert_eq!(both.get("y"), Some("3".to_string()));
    assert_eq!(both.get("z"), Some("4".to_string()));
    assert_eq!(both.len(), 3);
}

#[test]
fn insert_replaces_or_adds() {
    let mut c = KiauhConfig::empty();
    c.insert("a".to_string(), "1".to_string());
    c.insert("a".to_string(), "2".to_string());
    c.insert("b".to_string(), "3".to_string());
    assert_eq!(c.len(), 2);
    assert_eq!(c.get("a"), Some("2".to_string()));
}

#[test]
fn entries_list_each_key_once() {
    let c = KiauhConfig::parse("a=1\nb=2\na=3\n");
    let mut e: Vec<(String, String)> = c.entries().clone();
    e.sort();
    assert_eq!(e, vec![("a".to_string(), "3".to_string()), ("b".to_string(), "2".to_string())]);
}

#[test]
fn appended_assignment_sets_its_key() {
    let base = "a=1\nb=2\n";
    let before = KiauhConfig::parse(base);
    let after = KiauhConfig::parse(&format!("{}{}", base, "  b  =  9 "));
    assert_eq!(before.get("b"), Some("2".to_string()));
    assert_eq!(after.get("b"), Some("9".to_string()));
    assert_eq!(after.get("a"), Some("1".to_string()));
    assert_eq!(after.len(), 2);
    let added = KiauhConfig::parse(&format!("{}{}", base, "c=3"));
    assert_eq!(added.get("c"), Some("3".to_string()));
    assert_eq!(added.len(), 3);
}
