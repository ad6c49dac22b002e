use git_ai::fork_app::ForkAppInstaller;
use git_ai::json::{parse_settings, render_settings};
use git_ai::settings::{SettingsDoc, SettingsValue};

#[test]
fn test_parse_reads_typed_values() {
    let doc = parse_settings(r#"{"GitInstanceType":2,"CustomGitInstancePath":"C:/x/git.exe"}"#)
        .expect("valid JSON object");
    assert_eq!(doc.get_int("GitInstanceType"), Some(2));
    assert_eq!(doc.get_str("CustomGitInstancePath").as_deref(), Some("C:/x/git.exe"));
    assert_eq!(doc.get_int("Missing"), None);
    assert_eq!(doc.get_str("GitInstanceType"), None);
}

#[test]
fn test_parse_rejects_malformed_json() {
    let r = parse_settings(r#"{"GitInstanceType":"#);
    assert!(r.is_err(), "malformed JSON must be an error, not an empty document");
}

#[test]
fn test_parse_rejects_non_object() {
    assert!(parse_settings("[1,2,3]").is_err());
    assert!(parse_settings("").is_err());
}

#[test]
fn test_set_replaces_in_place_and_appends() {
    let mut doc = parse_settings(r#"{"A":1,"B":"x"}"#).expect("valid");
    doc.set_int("A", 7);
    doc.set_str("C", "new".to_string());
    assert_eq!(doc.get_int("A"), Some(7));
    assert_eq!(doc.get_str("B").as_deref(), Some("x"));
    assert_eq!(doc.get_str("C").as_deref(), Some("new"));
    assert_eq!(doc.entries.len(), 3);
    assert_eq!(doc.entries[0].key, "A");
    assert_eq!(doc.entries[2].key, "C");
}

#[test]
fn test_remove_key_drops_only_that_entry() {
    let mut doc = parse_settings(r#"{"A":1,"B":2,"C":3}"#).expect("valid");
    doc.remove_key("B");
    assert_eq!(doc.get_int("A"), Some(1));
    assert_eq!(doc.get_int("B"), None);
    assert_eq!(doc.get_int("C"), Some(3));
    assert_eq!(doc.entries.len(), 2);
}

/// A parse/render round trip keeps every value, including ones the
/// logic does not interpret.
#[test]
fn test_parse_render_round_trip() {
    let text = r#"{"flag":true,"nested":{"a":[1,2]},"num":3,"frac":1.5,"s":"v"}"#;
    let doc = parse_settings(text).expect("valid");
    let rendered = render_settings(&doc).expect("renders");
    let a: serde_json::Value = serde_json::from_str(text).unwrap();
    let b: serde_json::Value = serde_json::from_str(&rendered).unwrap();
    assert_eq!(a, b, "round trip must preserve the document");
}

/// A fresh document serializes to a JSON object with exactly the keys
/// set on it; a parser reading it back sees the values written.
#[test]
fn test_render_fresh_document() {
    let mut doc = SettingsDoc::empty();
    doc.set_int("GitInstanceType", 2);
    doc.set_str("CustomGitInstancePath", "C:/new/git.exe".to_string());
    let rendered = render_settings(&doc).expect("renders");
    let v: serde_json::Value = serde_json::from_str(&rendered).unwrap();
    assert_eq!(v["GitInstanceType"].as_i64(), Some(2));
    assert_eq!(v["CustomGitInstancePath"].as_str(), Some("C:/new/git.exe"));
    assert_eq!(v.as_object().unwrap().len(), 2);
}

/// A non-integer number is not read as the instance type.
#[test]
fn test_fractional_instance_type_reads_as_none() {
    let doc = parse_settings(r#"{"GitInstanceType":2.5}"#).expect("valid");
    assert_eq!(doc.get_int("GitInstanceType"), None);
    assert_eq!(ForkAppInstaller::read_git_instance_type(&doc), None);
}

#[test]
fn test_reader_helpers() {
    let doc = parse_settings(r#"{"GitInstanceType":1,"CustomGitInstancePath":"C:/a"}"#)
        .expect("valid");
    assert_eq!(ForkAppInstaller::read_git_instance_type(&doc), Some(1));
    assert_eq!(ForkAppInstaller::read_custom_git_path(&doc).as_deref(), Some("C:/a"));
}

#[test]
fn test_settings_value_duplicate() {
    let v = SettingsValue::StrVal("abc".to_string());
    match v.duplicate() {
        SettingsValue::StrVal(s) => assert_eq!(s, "abc"),
        _ => panic!("duplicate changed the variant"),
    }
}

#[test]
fn test_parse_error_carries_message() {
    match parse_settings("not json") {
        Err(e) => assert!(!e.message().is_empty()),
        Ok(_) => panic!("expected an error"),
    }
}
