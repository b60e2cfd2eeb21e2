use systemd_run::{marshal, MarshaledMount, Mount, Property, RunSystem, WireValue};

fn find<'a>(props: &'a [Property], key: &str) -> Option<&'a WireValue> {
    props.iter().find(|p| p.key == key).map(|p| &p.value)
}

#[test]
fn writable_bind_uses_its_own_wire_key() {
    let props = RunSystem::new("x")
        .mount("/", Mount::bind("/srv/root").writable())
        .marshal_properties();
    assert_eq!(
        find(&props, "BindPaths"),
        Some(&WireValue::BindList(vec![(
            "/srv/root".to_string(),
            "/".to_string(),
            false,
            0
        )]))
    );
    assert!(find(&props, "BindReadOnlyPaths").is_none());
}

#[test]
fn read_only_bind_uses_the_other_wire_key() {
    let props = RunSystem::new("x")
        .mount("/", Mount::bind("/srv/root"))
        .marshal_properties();
    assert_eq!(
        find(&props, "BindReadOnlyPaths"),
        Some(&WireValue::BindList(vec![(
            "/srv/root".to_string(),
            "/".to_string(),
            false,
            0
        )]))
    );
    assert!(find(&props, "BindPaths").is_none());
}

#[test]
fn recursive_bind_sets_the_flag_bit() {
    let m = marshal("/mnt", Mount::bind("/src").recursive());
    // A recursive bind mount also ignores a missing source.
    assert_eq!(
        m,
        MarshaledMount::BindReadOnly("/src".to_string(), "/mnt".to_string(), true, 16384)
    );
    let m = marshal("/mnt", Mount::bind("/src"));
    assert_eq!(
        m,
        MarshaledMount::BindReadOnly("/src".to_string(), "/mnt".to_string(), false, 0)
    );
}

#[test]
fn mount_sources_and_points_are_escaped() {
    let m = marshal("/a b", Mount::bind("/c:d\\e"));
    assert_eq!(
        m,
        MarshaledMount::BindReadOnly(
            "/c\\:d\\\\e".to_string(),
            "/a\\ b".to_string(),
            false,
            0
        )
    );
}

#[test]
fn normal_mount_appends_implicit_read_only_option() {
    let m = marshal("/img", Mount::normal("/dev/sda1").opt("noexec").unwrap());
    assert_eq!(
        m,
        MarshaledMount::Normal(
            "/dev/sda1".to_string(),
            "/img".to_string(),
            false,
            vec![
                ("root".to_string(), "noexec".to_string()),
                ("root".to_string(), "ro".to_string())
            ]
        )
    );
    let m = marshal("/img", Mount::normal("/dev/sda1").writable());
    assert_eq!(
        m,
        MarshaledMount::Normal("/dev/sda1".to_string(), "/img".to_string(), false, vec![])
    );
}

#[test]
fn normal_mount_can_ignore_missing_source() {
    let m = marshal("/img", Mount::normal("/dev/sda1").ignore_nonexist().writable());
    assert_eq!(
        m,
        MarshaledMount::Normal("/dev/sda1".to_string(), "/img".to_string(), true, vec![])
    );
}

#[test]
fn tmpfs_joins_options_with_commas() {
    let m = marshal("/tmp", Mount::tmpfs());
    assert_eq!(m, MarshaledMount::Tmpfs("/tmp".to_string(), "ro".to_string()));

    let m = marshal("/tmp", Mount::tmpfs().writable());
    assert_eq!(m, MarshaledMount::Tmpfs("/tmp".to_string(), "".to_string()));

    let m = marshal(
        "/tmp",
        Mount::tmpfs().opt("size=10M").unwrap().opt("nr_inodes=400k").unwrap(),
    );
    assert_eq!(
        m,
        MarshaledMount::Tmpfs("/tmp".to_string(), "size=10M,nr_inodes=400k,ro".to_string())
    );

    let m = marshal("/tmp", Mount::tmpfs().writable().opt("size=1M").unwrap());
    assert_eq!(m, MarshaledMount::Tmpfs("/tmp".to_string(), "size=1M".to_string()));
}

#[test]
fn option_validation_rejects_bad_options() {
    assert!(Mount::tmpfs().opt("a,b").is_none());
    assert!(Mount::tmpfs().opt("").is_none());
    assert!(Mount::tmpfs().opt("ro").is_none());
    assert!(Mount::tmpfs().opt("rw").is_none());
    assert!(Mount::bind("/src").opt("noexec").is_none());
    assert!(Mount::tmpfs().opt("noexec").is_some());
    assert!(Mount::normal("/s").opt("noexec").is_some());
}

#[test]
fn mixed_mounts_sort_into_their_properties() {
    let props = RunSystem::new("x")
        .mount("/", Mount::bind("/root"))
        .mount("/tmp", Mount::tmpfs())
        .mount("/w", Mount::bind("/srv").writable())
        .mount("/img", Mount::normal("/dev/sda2").writable())
        .marshal_properties();
    assert_eq!(
        find(&props, "BindPaths"),
        Some(&WireValue::BindList(vec![(
            "/srv".to_string(),
            "/w".to_string(),
            false,
            0
        )]))
    );
    assert_eq!(
        find(&props, "BindReadOnlyPaths"),
        Some(&WireValue::BindList(vec![(
            "/root".to_string(),
            "/".to_string(),
            false,
            0
        )]))
    );
    assert_eq!(
        find(&props, "MountImages"),
        Some(&WireValue::ImageList(vec![(
            "/dev/sda2".to_string(),
            "/img".to_string(),
            false,
            vec![]
        )]))
    );
    assert_eq!(
        find(&props, "TemporaryFileSystem"),
        Some(&WireValue::PairList(vec![("/tmp".to_string(), "ro".to_string())]))
    );
}

#[test]
fn absent_mounts_emit_no_properties() {
    let props = RunSystem::new("x").marshal_properties();
    assert!(find(&props, "BindPaths").is_none());
    assert!(find(&props, "BindReadOnlyPaths").is_none());
    assert!(find(&props, "MountImages").is_none());
    assert!(find(&props, "TemporaryFileSystem").is_none());
}
