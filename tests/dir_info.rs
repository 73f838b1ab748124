use rpm_dirs::dir_info::DirInfo;
use rpm_dirs::error::ConfigError;
use rpm_dirs::mode::parse_octal_mode;
use rpm_dirs::value::{str_eq, EntryValue, FieldValue};

fn text(s: &str) -> FieldValue {
    FieldValue::Text(s.to_string())
}

fn table(fields: Vec<(&str, FieldValue)>) -> EntryValue {
    EntryValue::Table(fields.into_iter().map(|(k, v)| (k.to_string(), v)).collect())
}

fn dir_entry(dir: &str) -> EntryValue {
    table(vec![("dir", text(dir))])
}

fn parse_single(entry: EntryValue) -> Result<Vec<DirInfo>, ConfigError> {
    DirInfo::new(&[entry])
}

fn record(dir: &str, caps: Option<&str>) -> DirInfo {
    DirInfo {
        idx: 3,
        dir: dir.to_string(),
        user: None,
        group: None,
        mode: 0o750,
        caps: caps.map(|c| c.to_string()),
    }
}

#[test]
fn empty_list_gives_no_records() {
    let dirs = DirInfo::new(&[]).unwrap();
    assert!(dirs.is_empty());
}

#[test]
fn records_follow_input_order() {
    let entries = vec![dir_entry("/var/lib/a"), dir_entry("/var/lib/b"), dir_entry("/opt/c")];
    let dirs = DirInfo::new(&entries).unwrap();
    assert_eq!(dirs.len(), 3);
    let expected = ["/var/lib/a", "/var/lib/b", "/opt/c"];
    for (i, d) in dirs.iter().enumerate() {
        assert_eq!(d.idx, i);
        assert_eq!(d.dir, expected[i]);
    }
}

#[test]
fn all_fields_are_taken_over() {
    let entry = table(vec![
        ("dir", text("/srv/app")),
        ("user", text("app")),
        ("group", text("apps")),
        ("mode", text("750")),
        ("caps", text("cap_net_bind_service=ep")),
    ]);
    let d = &parse_single(entry).unwrap()[0];
    assert_eq!(d.idx, 0);
    assert_eq!(d.dir, "/srv/app");
    assert_eq!(d.user.as_deref(), Some("app"));
    assert_eq!(d.group.as_deref(), Some("apps"));
    assert_eq!(d.mode, 0o750);
    assert_eq!(d.caps.as_deref(), Some("cap_net_bind_service=ep"));
}

#[test]
fn absent_optional_fields_stay_unset() {
    let d = &parse_single(dir_entry("/srv/app")).unwrap()[0];
    assert_eq!(d.user, None);
    assert_eq!(d.group, None);
    assert_eq!(d.caps, None);
}

#[test]
fn default_mode_is_755() {
    let d = &parse_single(dir_entry("/srv/app")).unwrap()[0];
    assert_eq!(d.mode, 0o755);
}

#[test]
fn mode_700_is_kept() {
    let entry = table(vec![("dir", text("/srv/app")), ("mode", text("700"))]);
    assert_eq!(parse_single(entry).unwrap()[0].mode, 0o700);
}

#[test]
fn mode_high_bits_are_dropped() {
    let entry = table(vec![("dir", text("/srv/app")), ("mode", text("7777"))]);
    assert_eq!(parse_single(entry).unwrap()[0].mode, 0o777);
    let entry = table(vec![("dir", text("/srv/app")), ("mode", text("4755"))]);
    assert_eq!(parse_single(entry).unwrap()[0].mode, 0o755);
}

#[test]
fn mode_beyond_u16_keeps_low_bits() {
    let entry = table(vec![("dir", text("/srv/app")), ("mode", text("177777"))]);
    assert_eq!(parse_single(entry).unwrap()[0].mode, 0o777);
    let entry = table(vec![("dir", text("/srv/app")), ("mode", text("200000"))]);
    assert_eq!(parse_single(entry).unwrap()[0].mode, 0);
    let entry = table(vec![("dir", text("/srv/app")), ("mode", text("77777777777777777777750"))]);
    assert_eq!(parse_single(entry).unwrap()[0].mode, 0o750);
}

fn assert_mode_rejected(mode: &str) {
    let entry = table(vec![("dir", text("/srv/app")), ("mode", text(mode))]);
    let err = DirInfo::new(&[dir_entry("/ok"), entry]).unwrap_err();
    assert!(matches!(err, ConfigError::DirsWrongType(1, "mode", "oct-string")), "{:?}", err);
}

#[test]
fn mode_abc_is_not_octal() {
    assert_mode_rejected("abc");
}

#[test]
fn mode_with_digit_eight_is_not_octal() {
    assert_mode_rejected("758");
}

#[test]
fn mode_empty_or_signed_is_rejected() {
    assert_mode_rejected("");
    assert_mode_rejected("+");
    assert_mode_rejected("+700");
    assert_mode_rejected("-755");
    assert_mode_rejected(" 755");
}

#[test]
fn mode_that_is_not_text() {
    let entry = table(vec![("dir", text("/srv/app")), ("mode", FieldValue::Other)]);
    let err = parse_single(entry).unwrap_err();
    assert!(matches!(err, ConfigError::DirsWrongType(0, "mode", "string")));
}

#[test]
fn missing_dir_is_reported_at_its_index() {
    let entries = vec![
        dir_entry("/a"),
        table(vec![("user", text("app"))]),
        dir_entry("/c"),
    ];
    let err = DirInfo::new(&entries).unwrap_err();
    assert!(matches!(err, ConfigError::DirsMissing(1, "dir")));
}

#[test]
fn dir_that_is_not_text_names_dest() {
    let entry = table(vec![("dir", FieldValue::Other)]);
    let err = parse_single(entry).unwrap_err();
    assert!(matches!(err, ConfigError::DirsWrongType(0, "dest", "string")));
}

#[test]
fn entry_that_is_not_a_table() {
    let entries = vec![dir_entry("/a"), dir_entry("/b"), EntryValue::Other];
    let err = DirInfo::new(&entries).unwrap_err();
    assert!(matches!(err, ConfigError::DirsWrongBaseType(2)));
}

#[test]
fn first_invalid_entry_wins() {
    let entries = vec![EntryValue::Other, dir_entry("/b")];
    let err = DirInfo::new(&entries).unwrap_err();
    assert!(matches!(err, ConfigError::DirsWrongBaseType(0)));
    let entries = vec![table(vec![]), EntryValue::Other];
    let err = DirInfo::new(&entries).unwrap_err();
    assert!(matches!(err, ConfigError::DirsMissing(0, "dir")));
}

#[test]
fn fields_are_checked_in_order() {
    let entry = table(vec![
        ("caps", FieldValue::Other),
        ("mode", text("xyz")),
        ("group", FieldValue::Other),
        ("user", FieldValue::Other),
        ("dir", text("/a")),
    ]);
    let err = parse_single(entry).unwrap_err();
    assert!(matches!(err, ConfigError::DirsWrongType(0, "user", "string")));
    let entry = table(vec![
        ("caps", FieldValue::Other),
        ("mode", text("xyz")),
        ("group", FieldValue::Other),
        ("dir", text("/a")),
    ]);
    let err = parse_single(entry).unwrap_err();
    assert!(matches!(err, ConfigError::DirsWrongType(0, "group", "string")));
    let entry = table(vec![("caps", FieldValue::Other), ("mode", text("xyz")), ("dir", text("/a"))]);
    let err = parse_single(entry).unwrap_err();
    assert!(matches!(err, ConfigError::DirsWrongType(0, "mode", "oct-string")));
    let entry = table(vec![("caps", FieldValue::Other), ("dir", text("/a"))]);
    let err = parse_single(entry).unwrap_err();
    assert!(matches!(err, ConfigError::DirsWrongType(0, "caps", "string")));
}

#[test]
fn first_pair_with_a_key_is_used() {
    let entry = table(vec![("dir", text("/first")), ("dir", text("/second"))]);
    assert_eq!(parse_single(entry).unwrap()[0].dir, "/first");
}

#[test]
fn octal_parser_values() {
    assert_eq!(parse_octal_mode("0"), Some(0));
    assert_eq!(parse_octal_mode("755"), Some(0o755));
    assert_eq!(parse_octal_mode("0755"), Some(0o755));
    assert_eq!(parse_octal_mode("1000"), Some(0));
    assert_eq!(parse_octal_mode("177777"), Some(0o777));
    assert_eq!(parse_octal_mode("200644"), Some(0o644));
    assert_eq!(parse_octal_mode("7a"), None);
    assert_eq!(parse_octal_mode("+7"), None);
    assert_eq!(parse_octal_mode(""), None);
}

#[test]
fn string_equality() {
    assert!(str_eq("dir", "dir"));
    assert!(!str_eq("dir", "dirs"));
    assert!(!str_eq("dir", "dur"));
    assert!(str_eq("", ""));
}

#[test]
fn render_without_caps() {
    let options = record("/srv/app", None).generate_rpm_file_options().unwrap().into_file_options();
    let shown = format!("{:?}", options);
    assert!(shown.contains("\"/srv/app\""), "{}", shown);
    assert!(shown.contains("caps: None"), "{}", shown);
    // directory type bits 0o040000 with permissions 0o750
    assert!(shown.contains(&format!("FileMode({})", 0o040750)), "{}", shown);
}

#[test]
fn render_sets_owner_and_group() {
    let mut d = record("/srv/app", None);
    d.user = Some("svc-user".to_string());
    d.group = Some("svc-group".to_string());
    let shown = format!("{:?}", d.generate_rpm_file_options().unwrap().into_file_options());
    assert!(shown.contains("Some(\"svc-user\")"), "{}", shown);
    assert!(shown.contains("Some(\"svc-group\")"), "{}", shown);
}

#[test]
fn render_with_accepted_caps() {
    let options = record("/srv/app", Some("cap_net_bind_service=ep"))
        .generate_rpm_file_options()
        .unwrap()
        .into_file_options();
    let shown = format!("{:?}", options);
    assert!(shown.contains("cap_net_bind_service=ep"), "{}", shown);
}

#[test]
fn render_with_rejected_caps_names_the_index() {
    let err = record("/srv/app", Some("cap_no_such_thing=ep"))
        .generate_rpm_file_options()
        .err()
        .unwrap();
    assert!(matches!(err, ConfigError::DirsInvalidCaps(3, _)), "{:?}", err);
    let err = record("/srv/app", Some("cap_chown")).generate_rpm_file_options().err().unwrap();
    assert!(matches!(err, ConfigError::DirsInvalidCaps(3, _)), "{:?}", err);
}

#[test]
fn parse_then_render_keeps_order() {
    let entries = vec![
        table(vec![("dir", text("/one")), ("caps", text("cap_chown=ep"))]),
        dir_entry("/two"),
    ];
    let dirs = DirInfo::new(&entries).unwrap();
    let shown: Vec<String> = dirs
        .iter()
        .map(|d| format!("{:?}", d.generate_rpm_file_options().unwrap().into_file_options()))
        .collect();
    assert!(shown[0].contains("\"/one\""));
    assert!(shown[1].contains("\"/two\""));
}

