use build_wrap::config::{
    allowed_directories, allowed_packages, load_policy, policy_from_document, ConfigIssue,
    PolicyKind, TomlValue,
};

fn s(text: &str) -> TomlValue {
    TomlValue::Str(text.to_string())
}

fn array(items: Vec<TomlValue>) -> TomlValue {
    TomlValue::Array(items)
}

fn entry(key: &str, value: TomlValue) -> (String, TomlValue) {
    (key.to_string(), value)
}

#[test]
fn both_allow_and_ignore_is_no_policy() {
    let doc = vec![
        entry("allow", TomlValue::Table(vec![entry("packages", array(vec![s("a")]))])),
        entry("ignore", TomlValue::Table(vec![])),
    ];
    assert!(matches!(policy_from_document(&doc), Err(ConfigIssue::BothAllowAndIgnore)));
    let (policy, issue) = load_policy(Some(&doc));
    assert!(policy.is_none());
    assert_eq!(issue, Some(ConfigIssue::BothAllowAndIgnore));
    let (missing, no_issue) = load_policy(None);
    assert!(missing.is_none());
    assert!(no_issue.is_none());
}

#[test]
fn non_string_element_discards_whole_document() {
    let doc = vec![entry(
        "allow",
        TomlValue::Table(vec![
            entry("directories", array(vec![s("/src")])),
            entry("packages", array(vec![s("libc"), TomlValue::Other("1".to_string())])),
        ]),
    )];
    let (policy, issue) = load_policy(Some(&doc));
    assert!(policy.is_none());
    assert_eq!(issue, Some(ConfigIssue::NotAString(1, 1)));
}

#[test]
fn allow_table_is_read() {
    let doc = vec![entry(
        "allow",
        TomlValue::Table(vec![
            entry("directories", array(vec![s("/src"), s("/work")])),
            entry("packages", array(vec![s("libc")])),
        ]),
    )];
    let policy = policy_from_document(&doc).unwrap().unwrap();
    assert_eq!(policy.kind, PolicyKind::Allow);
    assert_eq!(policy.directories, vec!["/src".to_string(), "/work".to_string()]);
    assert_eq!(policy.packages, vec!["libc".to_string()]);
    let in_force = Some(policy);
    assert_eq!(allowed_directories(&in_force).unwrap().len(), 2);
    assert_eq!(allowed_packages(&in_force).unwrap()[0], "libc");
}

#[test]
fn ignore_table_without_packages_lists_none() {
    let doc = vec![entry(
        "ignore",
        TomlValue::Table(vec![entry("directories", array(vec![s("/tmp")]))]),
    )];
    let (policy, issue) = load_policy(Some(&doc));
    assert!(issue.is_none());
    let policy = policy.unwrap();
    assert_eq!(policy.kind, PolicyKind::Ignore);
    assert!(policy.packages.is_empty());
    assert_eq!(policy.directories, vec!["/tmp".to_string()]);
}

#[test]
fn document_without_tables_is_no_policy() {
    let doc = vec![entry("other", s("x"))];
    let (policy, issue) = load_policy(Some(&doc));
    assert!(policy.is_none());
    assert!(issue.is_none());
    assert!(allowed_directories(&policy).is_none());
    assert!(allowed_packages(&policy).is_none());
}

#[test]
fn allow_value_not_a_table() {
    let doc = vec![entry("allow", s("everything"))];
    assert!(matches!(
        policy_from_document(&doc),
        Err(ConfigIssue::NotATable(PolicyKind::Allow))
    ));
}

#[test]
fn unexpected_key_discards_document() {
    let doc = vec![entry(
        "ignore",
        TomlValue::Table(vec![
            entry("packages", array(vec![])),
            entry("crates", array(vec![s("x")])),
        ]),
    )];
    assert!(matches!(policy_from_document(&doc), Err(ConfigIssue::UnexpectedKey(1))));
}

#[test]
fn entry_that_is_not_an_array() {
    let doc = vec![entry(
        "allow",
        TomlValue::Table(vec![entry("directories", s("/src"))]),
    )];
    assert!(matches!(policy_from_document(&doc), Err(ConfigIssue::NotAnArray(0))));
}
