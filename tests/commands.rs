use coursework::archive::{configured_password, default_archive_name_on, get_default_zip_file_name, Zip};
use coursework::commands::MyCommand;
use coursework::config::{ConfigDocument, ConfigEntry, ConfigError, ConfigValue, FieldMap};
use coursework::date::Date;
use coursework::dispatch::{Commands, Plan};
use coursework::run;
use coursework::mail::Mail;
use coursework::message::{compose_message, MailError};
use coursework::scaffold::New;

fn text(s: &str) -> ConfigValue {
    ConfigValue::Text(s.to_string())
}

fn table(pairs: &[(&str, ConfigValue)]) -> FieldMap {
    let mut m = FieldMap::new();
    for (k, v) in pairs {
        m.insert(k.to_string(), v.clone());
    }
    m
}

fn day() -> Date {
    Date::new(2024, 1, 15, 9, 3, 7)
}

fn student_doc() -> ConfigDocument {
    let mut doc = ConfigDocument::new();
    doc.insert(
        "global".to_string(),
        ConfigEntry::Table(table(&[("user_name", text("alice")), ("class_name", text("cs101"))])),
    );
    doc.insert(
        "zip".to_string(),
        ConfigEntry::Table(table(&[(
            "ignore",
            ConfigValue::TextList(vec![".git".to_string()]),
        )])),
    );
    doc
}

fn mail_doc() -> ConfigDocument {
    let mut doc = student_doc();
    doc.insert(
        "mail".to_string(),
        ConfigEntry::Table(table(&[
            ("email", text("alice@example.com")),
            ("password", text("SECRET-REDACTED")),
            ("smtp_server", text("smtp.example.com")),
            ("smtp_port", ConfigValue::Integer(465)),
            ("receiver", text("teacher@example.com")),
        ])),
    );
    doc
}

#[test]
fn date_stamps() {
    assert_eq!(day().compact_text(), "20240115");
    assert_eq!(day().timestamp_text(), "2024-01-15 09:03:07");
    assert_eq!(Date::new(7, 12, 3, 0, 0, 0).compact_text(), "00071203");
    assert_eq!(Date::new(12345, 6, 7, 0, 0, 0).compact_text(), "+123450607");
    assert_eq!(Date::new(-5, 6, 7, 0, 0, 0).compact_text(), "-00050607");
}

#[test]
fn now_is_a_valid_date() {
    let d = Date::now();
    assert!((1..=12).contains(&d.month));
    assert!((1..=31).contains(&d.day));
    assert!(d.hour <= 23 && d.minute <= 59 && d.second <= 59);
}

#[test]
fn default_archive_name_from_global_table() {
    let doc = student_doc();
    assert_eq!(default_archive_name_on(&doc, &day()).unwrap(), "cs101_alice_20240115.zip");
    let today = get_default_zip_file_name(&doc).unwrap();
    assert!(today.starts_with("cs101_alice_"));
    assert!(today.ends_with(".zip"));
    assert_eq!(today.len(), "cs101_alice_20240115.zip".len());
}

#[test]
fn default_archive_name_needs_user_and_class() {
    let doc = ConfigDocument::new();
    assert_eq!(
        default_archive_name_on(&doc, &day()),
        Err(ConfigError::RequiredFieldMissing("user_name".to_string()))
    );
}

#[test]
fn zip_job_from_config() {
    let doc = student_doc();
    let cmd = Zip { ignore: None, dir_path: "work".to_string() };
    let fields = cmd.parse_field(&doc).unwrap();
    let job = Zip::archive_job(&fields, &doc, &day()).unwrap();
    assert_eq!(job.root, "work");
    assert_eq!(job.ignore, vec![".git".to_string()]);
    assert_eq!(job.file_name, "cs101_alice_20240115.zip");
    assert_eq!(job.password, None);
}

#[test]
fn zip_ignore_flag_overrides_config() {
    let doc = student_doc();
    let cmd = Zip { ignore: Some(vec!["target".to_string()]), dir_path: ".".to_string() };
    let job = cmd.zip(&doc).unwrap();
    assert_eq!(job.ignore, vec!["target".to_string()]);
    assert_eq!(job.root, ".");
}

#[test]
fn zip_without_ignore_list_fails() {
    let mut doc = student_doc();
    doc.insert("zip".to_string(), ConfigEntry::Table(FieldMap::new()));
    let cmd = Zip { ignore: None, dir_path: ".".to_string() };
    assert_eq!(cmd.zip(&doc), Err(ConfigError::RequiredFieldMissing("ignore".to_string())));
}

#[test]
fn archive_password_only_when_not_empty() {
    let mut doc = student_doc();
    doc.set_field("zip", "password".to_string(), text("")).unwrap();
    assert_eq!(configured_password(&doc), Ok(None));
    doc.set_field("zip", "password".to_string(), text("s3cret")).unwrap();
    assert_eq!(configured_password(&doc), Ok(Some("s3cret".to_string())));
    doc.set_field("zip", "password".to_string(), ConfigValue::Integer(1)).unwrap();
    assert_eq!(configured_password(&doc), Err(ConfigError::InvalidField("password".to_string())));
}

fn new_doc(n: i64) -> ConfigDocument {
    let mut doc = ConfigDocument::new();
    doc.insert(
        "new".to_string(),
        ConfigEntry::Table(table(&[
            ("workspace", text("/tmp/ws")),
            ("course_name", text("virtual-base")),
            ("courses_number", ConfigValue::Integer(n)),
            ("note_name", text("note.md")),
        ])),
    );
    doc
}

fn counter(doc: &ConfigDocument) -> ConfigValue {
    doc.table("new").unwrap().get("courses_number").unwrap().clone()
}

#[test]
fn scaffold_scenario_virtual_base() {
    let mut doc = new_doc(5);
    let cmd = New { course_name: None, courses_number: None, note_name: None, workspace: None };
    let fields = cmd.parse_field(&doc).unwrap();
    let plan = New::project_plan(&fields).unwrap();
    assert_eq!(plan.workspace, "/tmp/ws");
    assert_eq!(plan.project_name, "6-virtual-base");
    assert_eq!(plan.note_name, "note.md");
    assert_eq!(New::update_config_courses_number(&mut doc), Ok(6));
    assert_eq!(counter(&doc), ConfigValue::Integer(6));
}

#[test]
fn two_runs_advance_counter_by_two() {
    let mut doc = new_doc(5);
    let cmd = New {
        course_name: Some("virtual-base".to_string()),
        courses_number: Some(5),
        note_name: None,
        workspace: None,
    };
    for expected in [6, 7] {
        let fields = cmd.parse_field(&doc).unwrap();
        assert_eq!(New::project_plan(&fields).unwrap().project_name, "6-virtual-base");
        assert_eq!(New::update_config_courses_number(&mut doc), Ok(expected));
    }
    assert_eq!(counter(&doc), ConfigValue::Integer(7));
}

#[test]
fn project_name_formats() {
    let f = table(&[("course_name", text("x")), ("courses_number", ConfigValue::Integer(-5))]);
    assert_eq!(New::get_project_name(&f).unwrap(), "-4-x");
    let f = table(&[("course_name", text("x")), ("courses_number", ConfigValue::Integer(99))]);
    assert_eq!(New::get_project_name(&f).unwrap(), "100-x");
    let f = table(&[("course_name", text("x")), ("courses_number", ConfigValue::Integer(i64::MAX))]);
    assert_eq!(
        New::get_project_name(&f),
        Err(ConfigError::InvalidField("courses_number".to_string()))
    );
    let f = table(&[("courses_number", ConfigValue::Integer(1))]);
    assert_eq!(
        New::get_project_name(&f),
        Err(ConfigError::RequiredFieldMissing("course_name".to_string()))
    );
}

#[test]
fn counter_errors_leave_document_unchanged() {
    let mut doc = new_doc(i64::MAX);
    assert_eq!(
        New::update_config_courses_number(&mut doc),
        Err(ConfigError::InvalidField("courses_number".to_string()))
    );
    assert_eq!(counter(&doc), ConfigValue::Integer(i64::MAX));
    let mut empty = ConfigDocument::new();
    assert_eq!(
        New::update_config_courses_number(&mut empty),
        Err(ConfigError::RequiredFieldMissing("courses_number".to_string()))
    );
    assert_eq!(empty.count(), 0);
}

#[test]
fn scaffold_needs_workspace() {
    let f = table(&[("course_name", text("x")), ("courses_number", ConfigValue::Integer(1))]);
    assert_eq!(
        New::project_plan(&f),
        Err(ConfigError::RequiredFieldMissing("workspace".to_string()))
    );
}

#[test]
fn mail_auto_attaches_the_archive() {
    let doc = mail_doc();
    let cmd = Mail { send: false, auto: true, attachment: None, output: None };
    let fields = cmd.parse_field(&doc).unwrap();
    let plan = Mail::build_plan(&fields, &doc, &day()).unwrap();
    let job = plan.archive.clone().unwrap();
    assert_eq!(job.root, ".");
    assert_eq!(job.file_name, "cs101_alice_20240115.zip");
    assert_eq!(job.ignore, vec![".git".to_string()]);
    assert_eq!(plan.attachment, job.file_name);
    assert_eq!(plan.subject, "cs101_alice_20240115");
    assert_eq!(plan.from, "alice@example.com");
    assert_eq!(plan.to, "teacher@example.com");
    assert!(!plan.send);
    assert_eq!(plan.output, None);
    assert_eq!(plan.smtp.server, "smtp.example.com");
    assert_eq!(plan.smtp.port, 465);
    assert_eq!(plan.smtp.user, "alice@example.com");
}

#[test]
fn mail_attachment_override_and_default() {
    let doc = mail_doc();
    let cmd = Mail { send: true, auto: false, attachment: Some("hw.zip".to_string()), output: Some("out.eml".to_string()) };
    let fields = cmd.parse_field(&doc).unwrap();
    let plan = Mail::build_plan(&fields, &doc, &day()).unwrap();
    assert_eq!(plan.archive, None);
    assert_eq!(plan.attachment, "hw.zip");
    assert_eq!(plan.output, Some("out.eml".to_string()));
    assert!(plan.send);
    let cmd = Mail { send: false, auto: false, attachment: None, output: None };
    let fields = cmd.parse_field(&doc).unwrap();
    let plan = Mail::build_plan(&fields, &doc, &day()).unwrap();
    assert_eq!(plan.attachment, "cs101_alice_20240115.zip");
    assert!(matches!(run(&Commands::Mail(cmd), &doc), Ok(Plan::Mail(_))));
}

#[test]
fn mail_port_and_missing_fields() {
    let mut doc = mail_doc();
    doc.set_field("mail", "smtp_port".to_string(), ConfigValue::Integer(70000)).unwrap();
    let cmd = Mail { send: false, auto: false, attachment: None, output: None };
    let fields = cmd.parse_field(&doc).unwrap();
    assert_eq!(Mail::build_plan(&fields, &doc, &day()).unwrap().smtp.port, 4464);
    let doc = student_doc();
    assert_eq!(
        run(&Commands::Mail(cmd), &doc),
        Err(ConfigError::RequiredFieldMissing("email".to_string()))
    );
}

fn plan_for(from: &str, to: &str) -> coursework::mail::MailPlan {
    let mut doc = mail_doc();
    doc.set_field("mail", "email".to_string(), text(from)).unwrap();
    doc.set_field("mail", "receiver".to_string(), text(to)).unwrap();
    let cmd = Mail { send: false, auto: false, attachment: None, output: None };
    let fields = cmd.parse_field(&doc).unwrap();
    Mail::build_plan(&fields, &doc, &day()).unwrap()
}

#[test]
fn message_carries_subject_body_and_attachment() {
    let plan = plan_for("alice@example.com", "teacher@example.com");
    let m = compose_message(&plan, &day(), "hw.zip", b"payload".to_vec()).unwrap();
    let raw = String::from_utf8_lossy(&m.formatted()).to_string();
    assert!(raw.contains("Subject: cs101_alice_20240115"));
    assert!(raw.contains("2024-01-15 09:03:07"));
    assert!(raw.contains("hw.zip"));
    assert!(raw.contains("teacher@example.com"));
}

#[test]
fn message_rejects_bad_addresses() {
    let plan = plan_for("not an address", "teacher@example.com");
    match compose_message(&plan, &day(), "a", Vec::new()) {
        Err(MailError::InvalidSender(s)) => assert_eq!(s, "not an address"),
        other => panic!("unexpected {:?}", other.map(|_| ())),
    }
    let plan = plan_for("alice@example.com", "nobody");
    match compose_message(&plan, &day(), "a", Vec::new()) {
        Err(MailError::InvalidReceiver(s)) => assert_eq!(s, "nobody"),
        other => panic!("unexpected {:?}", other.map(|_| ())),
    }
}

#[test]
fn run_routes_each_command() {
    let doc = new_doc(5);
    let cmd = New { course_name: None, courses_number: None, note_name: None, workspace: None };
    match run(&Commands::New(cmd), &doc) {
        Ok(Plan::Scaffold(p)) => assert_eq!(p.project_name, "6-virtual-base"),
        other => panic!("unexpected {:?}", other),
    }
    let doc = student_doc();
    let cmd = Zip { ignore: None, dir_path: "work".to_string() };
    match run(&Commands::Zip(cmd), &doc) {
        Ok(Plan::Archive(j)) => {
            assert_eq!(j.root, "work");
            assert!(j.file_name.starts_with("cs101_alice_"));
        }
        other => panic!("unexpected {:?}", other),
    }
}
