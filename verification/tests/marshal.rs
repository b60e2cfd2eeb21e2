use systemd_run::{
    Byte, CpuScheduling, Duration, Identity, InputSpec, OutputSpec, Property, ProtectProc,
    RunSystem, RunUser, WireValue,
};

fn find<'a>(props: &'a [Property], key: &str) -> Option<&'a WireValue> {
    props.iter().find(|p| p.key == key).map(|p| &p.value)
}

#[test]
fn default_property_list() {
    let props = RunSystem::new("/bin/true").marshal_properties();
    let keys: Vec<&str> = props.iter().map(|p| p.key.as_str()).collect();
    assert_eq!(
        keys,
        vec![
            "Description",
            "ExecStart",
            "AddRef",
            "User",
            "Group",
            "CPUSchedulingPolicy",
            "CPUSchedulingResetOnFork",
        ]
    );
    assert_eq!(
        find(&props, "Description"),
        Some(&WireValue::Str("/bin/true".to_string()))
    );
    assert_eq!(
        find(&props, "ExecStart"),
        Some(&WireValue::ExecList(vec![(
            "/bin/true".to_string(),
            vec!["/bin/true".to_string()],
            false
        )]))
    );
    assert_eq!(find(&props, "AddRef"), Some(&WireValue::Bool(true)));
    assert_eq!(find(&props, "User"), Some(&WireValue::Str("root".to_string())));
    assert_eq!(find(&props, "Group"), Some(&WireValue::Str("root".to_string())));
    assert_eq!(find(&props, "CPUSchedulingPolicy"), Some(&WireValue::I32(0)));
    assert_eq!(
        find(&props, "CPUSchedulingResetOnFork"),
        Some(&WireValue::Bool(false))
    );
}

#[test]
fn session_run_has_no_principal_properties() {
    let props = RunUser::new("/bin/true").marshal_properties();
    assert!(find(&props, "User").is_none());
    assert!(find(&props, "Group").is_none());
    assert!(find(&props, "DynamicUser").is_none());
}

#[test]
fn dynamic_identity_marshals_one_flag() {
    let props = RunSystem::new("/bin/true")
        .identity(Identity::dynamic())
        .marshal_properties();
    assert!(find(&props, "User").is_none());
    assert!(find(&props, "Group").is_none());
    assert_eq!(find(&props, "DynamicUser"), Some(&WireValue::Bool(true)));
}

#[test]
fn user_group_identity_marshals_pair() {
    let props = RunSystem::new("/bin/true")
        .identity(Identity::user_group("nobody", "nogroup"))
        .marshal_properties();
    assert_eq!(find(&props, "User"), Some(&WireValue::Str("nobody".to_string())));
    assert_eq!(find(&props, "Group"), Some(&WireValue::Str("nogroup".to_string())));
}

#[test]
fn args_are_appended_after_the_path() {
    let extra = vec!["b".to_string(), "c".to_string()];
    let props = RunSystem::new("/bin/echo").arg("a").args(&extra).marshal_properties();
    assert_eq!(
        find(&props, "ExecStart"),
        Some(&WireValue::ExecList(vec![(
            "/bin/echo".to_string(),
            vec![
                "/bin/echo".to_string(),
                "a".to_string(),
                "b".to_string(),
                "c".to_string()
            ],
            false
        )]))
    );
}

#[test]
fn memory_max_passes_small_values_through() {
    let props = RunSystem::new("x")
        .memory_max(Byte::from_bytes(123_456))
        .marshal_properties();
    assert_eq!(find(&props, "MemoryMax"), Some(&WireValue::U64(123_456)));
}

#[test]
fn memory_max_clamps_to_wire_maximum() {
    let props = RunSystem::new("x")
        .memory_max(Byte::from_bytes(u128::MAX))
        .marshal_properties();
    assert_eq!(find(&props, "MemoryMax"), Some(&WireValue::U64(u64::MAX)));
    let props = RunSystem::new("x")
        .memory_max(Byte::from_bytes(u64::MAX as u128 + 1))
        .marshal_properties();
    assert_eq!(find(&props, "MemoryMax"), Some(&WireValue::U64(u64::MAX)));
    let props = RunSystem::new("x")
        .memory_max(Byte::from_bytes(u64::MAX as u128))
        .marshal_properties();
    assert_eq!(find(&props, "MemoryMax"), Some(&WireValue::U64(u64::MAX)));
}

#[test]
fn runtime_max_is_marshalled_in_microseconds() {
    let props = RunSystem::new("x")
        .runtime_max(Duration::from_secs(1))
        .marshal_properties();
    assert_eq!(find(&props, "RuntimeMaxUSec"), Some(&WireValue::U64(1_000_000)));
}

#[test]
fn runtime_max_clamps_to_wire_maximum() {
    let props = RunSystem::new("x")
        .runtime_max(Duration::from_secs(u64::MAX))
        .marshal_properties();
    assert_eq!(find(&props, "RuntimeMaxUSec"), Some(&WireValue::U64(u64::MAX)));
}

#[test]
fn timeout_stop_is_marshalled_in_microseconds() {
    let props = RunSystem::new("x")
        .timeout_stop(Duration::from_millis(1500))
        .marshal_properties();
    assert_eq!(find(&props, "TimeoutStopUSec"), Some(&WireValue::U64(1_500_000)));
}

#[test]
fn soft_above_hard_is_trimmed_to_hard() {
    let props = RunSystem::new("x")
        .limit_fsize_soft_hard(Byte::from_bytes(10), Byte::from_bytes(5))
        .marshal_properties();
    assert_eq!(find(&props, "LimitFSIZE"), Some(&WireValue::U64(5)));
    assert_eq!(find(&props, "LimitFSIZESoft"), Some(&WireValue::U64(5)));
}

#[test]
fn soft_below_hard_is_kept() {
    let props = RunSystem::new("x")
        .limit_stack_soft_hard(Byte::from_bytes(3), Byte::from_bytes(5))
        .marshal_properties();
    assert_eq!(find(&props, "LimitSTACK"), Some(&WireValue::U64(5)));
    assert_eq!(find(&props, "LimitSTACKSoft"), Some(&WireValue::U64(3)));
}

#[test]
fn trimming_twice_changes_nothing() {
    let once = RunSystem::new("x")
        .limit_core_soft_hard(Byte::from_bytes(9), Byte::from_bytes(4))
        .marshal_properties();
    let twice = RunSystem::new("x")
        .limit_core_soft_hard(Byte::from_bytes(9), Byte::from_bytes(4))
        .limit_core_soft_hard(Byte::from_bytes(4), Byte::from_bytes(4))
        .marshal_properties();
    assert_eq!(find(&once, "LimitCORE"), find(&twice, "LimitCORE"));
    assert_eq!(find(&once, "LimitCORESoft"), find(&twice, "LimitCORESoft"));
}

#[test]
fn nproc_and_nofile_limits_are_trimmed() {
    let props = RunSystem::new("x")
        .limit_nproc_soft_hard(50, 20)
        .limit_nofile(32)
        .marshal_properties();
    assert_eq!(find(&props, "LimitNPROC"), Some(&WireValue::U64(20)));
    assert_eq!(find(&props, "LimitNPROCSoft"), Some(&WireValue::U64(20)));
    assert_eq!(find(&props, "LimitNOFILE"), Some(&WireValue::U64(32)));
    assert_eq!(find(&props, "LimitNOFILESoft"), Some(&WireValue::U64(32)));
}

#[test]
fn cpu_quota_is_scaled_to_hundred_microseconds() {
    let props = RunSystem::new("x").cpu_quota(100).marshal_properties();
    assert_eq!(find(&props, "CPUQuotaPerSecUSec"), Some(&WireValue::U64(1_000_000)));
}

#[test]
fn cpu_quota_never_wraps() {
    let props = RunSystem::new("x").cpu_quota(u64::MAX).marshal_properties();
    assert_eq!(
        find(&props, "CPUQuotaPerSecUSec"),
        Some(&WireValue::U64((u64::MAX / 10000) * 10000))
    );
}

#[test]
fn boolean_flags_are_emitted_only_when_true() {
    let props = RunSystem::new("x").marshal_properties();
    for key in [
        "PrivateNetwork",
        "PrivateIPC",
        "MountAPIVFS",
        "PrivateDevices",
        "NoNewPrivileges",
        "PrivateUsers",
    ] {
        assert!(find(&props, key).is_none(), "{} must be absent by default", key);
    }
    let props = RunSystem::new("x")
        .private_network()
        .private_ipc()
        .mount_api_vfs()
        .private_devices()
        .no_new_privileges()
        .private_users()
        .marshal_properties();
    for key in [
        "PrivateNetwork",
        "PrivateIPC",
        "MountAPIVFS",
        "PrivateDevices",
        "NoNewPrivileges",
        "PrivateUsers",
    ] {
        assert_eq!(find(&props, key), Some(&WireValue::Bool(true)));
    }
}

#[test]
fn collect_mode_appears_when_requested() {
    let props = RunSystem::new("x").marshal_properties();
    assert!(find(&props, "CollectMode").is_none());
    let props = RunSystem::new("x").collect_on_fail().marshal_properties();
    assert_eq!(
        find(&props, "CollectMode"),
        Some(&WireValue::Str("inactive-or-failed".to_string()))
    );
}

#[test]
fn working_directory_and_slice() {
    let props = RunSystem::new("x")
        .current_dir("/tmp")
        .slice("opoj-3.slice")
        .marshal_properties();
    assert_eq!(find(&props, "WorkingDirectory"), Some(&WireValue::Str("/tmp".to_string())));
    assert_eq!(find(&props, "Slice"), Some(&WireValue::Str("opoj-3.slice".to_string())));
}

#[test]
fn joins_namespace_of_collects_all_units() {
    let props = RunSystem::new("x")
        .joins_namespace_of("a.service")
        .joins_namespace_of("b.service")
        .marshal_properties();
    assert_eq!(
        find(&props, "JoinsNamespaceOf"),
        Some(&WireValue::StrList(vec![
            "a.service".to_string(),
            "b.service".to_string()
        ]))
    );
}

#[test]
fn scheduling_policies_use_kernel_codes() {
    let props = RunSystem::new("x")
        .cpu_schedule(CpuScheduling::batch())
        .marshal_properties();
    assert_eq!(find(&props, "CPUSchedulingPolicy"), Some(&WireValue::I32(3)));
    assert!(find(&props, "CPUSchedulingPriority").is_none());

    let props = RunSystem::new("x")
        .cpu_schedule(CpuScheduling::idle())
        .marshal_properties();
    assert_eq!(find(&props, "CPUSchedulingPolicy"), Some(&WireValue::I32(5)));

    let props = RunSystem::new("x")
        .cpu_schedule(CpuScheduling::fifo(42))
        .marshal_properties();
    assert_eq!(find(&props, "CPUSchedulingPolicy"), Some(&WireValue::I32(1)));
    assert_eq!(find(&props, "CPUSchedulingPriority"), Some(&WireValue::I32(42)));

    let props = RunSystem::new("x")
        .cpu_schedule(CpuScheduling::round_robin(99).reset_on_fork())
        .marshal_properties();
    assert_eq!(find(&props, "CPUSchedulingPolicy"), Some(&WireValue::I32(2)));
    assert_eq!(find(&props, "CPUSchedulingPriority"), Some(&WireValue::I32(99)));
    assert_eq!(find(&props, "CPUSchedulingResetOnFork"), Some(&WireValue::Bool(true)));
}

#[test]
fn protect_proc_values() {
    let props = RunSystem::new("x").marshal_properties();
    assert!(find(&props, "ProtectProc").is_none());
    let props = RunSystem::new("x")
        .protect_proc(ProtectProc::invisible())
        .marshal_properties();
    assert_eq!(
        find(&props, "ProtectProc"),
        Some(&WireValue::Str("invisible".to_string()))
    );
    let props = RunSystem::new("x")
        .protect_proc(ProtectProc::no_access())
        .marshal_properties();
    assert_eq!(
        find(&props, "ProtectProc"),
        Some(&WireValue::Str("noaccess".to_string()))
    );
    let props = RunSystem::new("x")
        .protect_proc(ProtectProc::ptraceable())
        .marshal_properties();
    assert_eq!(
        find(&props, "ProtectProc"),
        Some(&WireValue::Str("ptraceable".to_string()))
    );
}

#[test]
fn cpu_affinity_bitmap_and_omission() {
    let props = RunSystem::new("x").marshal_properties();
    assert!(find(&props, "AllowedCPUs").is_none());

    let cpus: Vec<usize> = vec![];
    let props = RunSystem::new("x").allowed_cpus(&cpus).marshal_properties();
    assert!(find(&props, "AllowedCPUs").is_none(), "empty set must omit the property");

    let cpus = vec![0usize, 1, 9];
    let props = RunSystem::new("x").allowed_cpus(&cpus).marshal_properties();
    assert_eq!(find(&props, "AllowedCPUs"), Some(&WireValue::Bytes(vec![0b11, 0b10])));

    let cpus = vec![16usize];
    let props = RunSystem::new("x").allowed_cpus(&cpus).marshal_properties();
    assert_eq!(find(&props, "AllowedCPUs"), Some(&WireValue::Bytes(vec![0, 0, 1])));
}

#[test]
fn cpu_affinity_round_trip() {
    let cpus = vec![0usize, 3, 7, 8, 63, 64];
    let bitmap = systemd_run::encode_cpus(&cpus);
    let mut decoded: Vec<usize> = Vec::new();
    for c in 0..bitmap.len() * 8 {
        if bitmap[c / 8] >> (c % 8) & 1 == 1 {
            decoded.push(c);
        }
    }
    assert_eq!(decoded, cpus);
}

#[test]
fn stdio_marshals_key_suffix_and_value() {
    let props = RunSystem::new("x")
        .stdin(InputSpec::null())
        .stdout(OutputSpec::journal())
        .stderr(OutputSpec::inherit())
        .marshal_properties();
    assert_eq!(find(&props, "StandardInput"), Some(&WireValue::Str("null".to_string())));
    assert_eq!(find(&props, "StandardOutput"), Some(&WireValue::Str("journal".to_string())));
    assert_eq!(find(&props, "StandardError"), Some(&WireValue::Str("inherit".to_string())));

    let props = RunSystem::new("x")
        .stdin(InputSpec::file("/in.txt"))
        .stdout(OutputSpec::truncate("/out.txt"))
        .stderr(OutputSpec::append("/err.txt"))
        .marshal_properties();
    assert_eq!(
        find(&props, "StandardInputFile"),
        Some(&WireValue::Str("/in.txt".to_string()))
    );
    assert_eq!(
        find(&props, "StandardOutputFileToTruncate"),
        Some(&WireValue::Str("/out.txt".to_string()))
    );
    assert_eq!(
        find(&props, "StandardErrorFileToAppend"),
        Some(&WireValue::Str("/err.txt".to_string()))
    );

    let props = RunSystem::new("x")
        .stdout(OutputSpec::file("/o"))
        .stderr(OutputSpec::null())
        .marshal_properties();
    assert_eq!(find(&props, "StandardOutputFile"), Some(&WireValue::Str("/o".to_string())));
    assert_eq!(find(&props, "StandardError"), Some(&WireValue::Str("null".to_string())));
}
