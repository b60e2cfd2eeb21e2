use systemd_run::{
    default_unit_name, escape_byte_for_object_path, object_path_from_unit_name, RunSystem,
};

#[test]
fn alphanumeric_bytes_stay_unescaped() {
    assert_eq!(escape_byte_for_object_path(b'a'), "a");
    assert_eq!(escape_byte_for_object_path(b'Z'), "Z");
    assert_eq!(escape_byte_for_object_path(b'0'), "0");
}

#[test]
fn other_bytes_become_lowercase_hex() {
    assert_eq!(escape_byte_for_object_path(b'-'), "_2d");
    assert_eq!(escape_byte_for_object_path(b'.'), "_2e");
    assert_eq!(escape_byte_for_object_path(b'/'), "_2f");
    assert_eq!(escape_byte_for_object_path(b'_'), "_5f");
    assert_eq!(escape_byte_for_object_path(0x00), "_00");
    assert_eq!(escape_byte_for_object_path(0xff), "_ff");
}

#[test]
fn object_path_has_fixed_prefix_and_escaped_name() {
    assert_eq!(
        object_path_from_unit_name("run-u3.service"),
        "/org/freedesktop/systemd1/unit/run_2du3_2eservice"
    );
}

#[test]
fn object_path_is_deterministic() {
    let a = object_path_from_unit_name("weird name\u{e9}.service");
    let b = object_path_from_unit_name("weird name\u{e9}.service");
    assert_eq!(a, b);
}

#[test]
fn escaped_path_tail_is_word_characters_only() {
    let path = object_path_from_unit_name("a b\\c:d\u{e9}.service");
    let tail = &path["/org/freedesktop/systemd1/unit/".len()..];
    assert!(tail
        .chars()
        .all(|c| c.is_ascii_alphanumeric() || c == '_'));
}

#[test]
fn default_name_strips_the_bus_prefix() {
    assert_eq!(default_unit_name(Some(":1.42")), "run-u42.service");
    assert_eq!(default_unit_name(Some(":abc")), "run-uabc.service");
    assert_eq!(default_unit_name(Some(":1.")), "run-u.service");
}

#[test]
fn default_name_without_bus_identifier_is_random() {
    let a = default_unit_name(None);
    let b = default_unit_name(None);
    assert!(a.starts_with("run-r"));
    assert!(a.ends_with(".service"));
    assert_eq!(a.len(), "run-r.service".len() + 32);
    assert_ne!(a, b, "two generated names should differ");
}

#[test]
fn service_name_suffix_is_appended_once() {
    let launch = RunSystem::new("/bin/true").service_name("foo").into_launch(None);
    assert_eq!(launch.unit_name, "foo.service");
    let launch = RunSystem::new("/bin/true")
        .service_name("foo.service")
        .into_launch(None);
    assert_eq!(launch.unit_name, "foo.service");
}

#[test]
fn launch_resolves_name_path_and_properties() {
    let launch = RunSystem::new("/bin/true")
        .service_name("opoj-runner-7")
        .into_launch(Some(":1.99"));
    assert_eq!(launch.unit_name, "opoj-runner-7.service");
    assert_eq!(
        launch.object_path,
        "/org/freedesktop/systemd1/unit/opoj_2drunner_2d7_2eservice"
    );
    assert_eq!(launch.properties[0].key, "Description");
}

#[test]
fn launch_without_name_uses_bus_identifier() {
    let launch = RunSystem::new("/bin/true").into_launch(Some(":1.7"));
    assert_eq!(launch.unit_name, "run-u7.service");
}
