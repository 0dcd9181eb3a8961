use coursework::commands::{get_global_filed_map, merge_fields, MyCommand};
use coursework::config::{ConfigDocument, ConfigEntry, ConfigError, ConfigValue, FieldMap};
use coursework::scaffold::New;

fn text(s: &str) -> ConfigValue {
    ConfigValue::Text(s.to_string())
}

fn table(pairs: &[(&str, ConfigValue)]) -> FieldMap {
    let mut m = FieldMap::new();
    for (k, v) in pairs {
        m.insert(k.to_string(), v.clone());
    }
    m
}

#[test]
fn insert_replaces_and_get_reads() {
    let mut m = FieldMap::new();
    m.insert("a".to_string(), text("1"));
    m.insert("b".to_string(), ConfigValue::Integer(2));
    m.insert("a".to_string(), text("3"));
    assert_eq!(m.count(), 2);
    assert_eq!(m.get("a"), Some(&text("3")));
    assert_eq!(m.get("b"), Some(&ConfigValue::Integer(2)));
    assert_eq!(m.get("c"), None);
}

#[test]
fn later_layer_wins() {
    let global = table(&[("user_name", text("alice")), ("note_name", text("g.md"))]);
    let command = table(&[("note_name", text("c.md")), ("workspace", text("/ws"))]);
    let overrides = table(&[("workspace", text("/other"))]);
    let m = merge_fields(&global, &command, &overrides);
    assert_eq!(m.count(), 3);
    assert_eq!(m.get("user_name"), Some(&text("alice")));
    assert_eq!(m.get("note_name"), Some(&text("c.md")));
    assert_eq!(m.get("workspace"), Some(&text("/other")));
    assert_eq!(m.get("course_name"), None);
}

#[test]
fn absent_override_keeps_configured_value() {
    let mut doc = ConfigDocument::new();
    doc.insert("new".to_string(), ConfigEntry::Table(table(&[("course_name", text("c"))])));
    let cmd = New { course_name: None, courses_number: Some(3), note_name: None, workspace: None };
    let fields = cmd.parse_field(&doc).unwrap();
    assert_eq!(fields.get("course_name"), Some(&text("c")));
    assert_eq!(fields.get("courses_number"), Some(&ConfigValue::Integer(3)));
    assert_eq!(fields.count(), 2);
}

#[test]
fn missing_tables_read_as_empty() {
    let doc = ConfigDocument::new();
    assert_eq!(get_global_filed_map(&doc).unwrap().count(), 0);
    let cmd = New { course_name: None, courses_number: None, note_name: None, workspace: None };
    assert_eq!(cmd.parse_field(&doc).unwrap().count(), 0);
}

#[test]
fn plain_value_in_place_of_table_is_invalid() {
    let mut doc = ConfigDocument::new();
    doc.insert("global".to_string(), ConfigEntry::Value(ConfigValue::Integer(1)));
    assert_eq!(
        get_global_filed_map(&doc).unwrap_err(),
        ConfigError::InvalidField("global".to_string())
    );
}

#[test]
fn typed_lookups_report_missing_and_invalid() {
    let m = table(&[
        ("name", text("x")),
        ("n", ConfigValue::Integer(7)),
        ("on", ConfigValue::Boolean(true)),
        ("list", ConfigValue::TextList(vec!["a".to_string()])),
    ]);
    assert_eq!(m.text("name").unwrap(), "x");
    assert_eq!(m.text("gone"), Err(ConfigError::RequiredFieldMissing("gone".to_string())));
    assert_eq!(m.text("n"), Err(ConfigError::InvalidField("n".to_string())));
    assert_eq!(m.integer("n"), Ok(7));
    assert_eq!(m.integer("name"), Err(ConfigError::InvalidField("name".to_string())));
    assert_eq!(m.flag("on"), Ok(true));
    assert_eq!(m.flag("gone"), Ok(false));
    assert_eq!(m.flag("n"), Err(ConfigError::InvalidField("n".to_string())));
    assert_eq!(m.text_list("list").unwrap(), vec!["a".to_string()]);
    assert_eq!(m.optional_text("gone"), Ok(None));
    assert_eq!(m.optional_text("name"), Ok(Some("x".to_string())));
    assert_eq!(m.optional_text("on"), Err(ConfigError::InvalidField("on".to_string())));
}

#[test]
fn document_set_field_creates_or_updates_table() {
    let mut doc = ConfigDocument::new();
    doc.set_field("zip", "password".to_string(), text("pw")).unwrap();
    assert_eq!(doc.table("zip").unwrap().get("password"), Some(&text("pw")));
    doc.insert("title".to_string(), ConfigEntry::Value(text("t")));
    assert_eq!(
        doc.set_field("title", "k".to_string(), text("v")),
        Err(ConfigError::InvalidField("title".to_string()))
    );
    assert_eq!(doc.count(), 2);
}

#[test]
fn keys_list_each_field_once() {
    let m = table(&[("b", text("1")), ("a", text("2")), ("b", text("3"))]);
    let mut keys = m.keys();
    keys.sort();
    assert_eq!(keys, vec!["a".to_string(), "b".to_string()]);
    let mut doc = ConfigDocument::new();
    doc.insert("zip".to_string(), ConfigEntry::Table(m));
    doc.insert("title".to_string(), ConfigEntry::Value(text("t")));
    let mut names = doc.keys();
    names.sort();
    assert_eq!(names, vec!["title".to_string(), "zip".to_string()]);
    assert!(matches!(doc.get("title"), Some(ConfigEntry::Value(ConfigValue::Text(_)))));
    assert!(doc.get("none").is_none());
}
