use cargo_dirty::parser::{parse_rebuild_entry, parse_rebuild_reason};
use cargo_dirty::reason::RebuildReason;

#[test]
fn extracts_package_context_from_cargo_log() {
    let log_line = r#"    0.102058909s  INFO prepare_target{force=false package_id=libz-sys v1.1.23 target="build-script-build"}: cargo::core::compiler::fingerprint:     dirty: EnvVarChanged { name: "CC", old_value: Some("gcc"), new_value: None }"#;

    let entry = parse_rebuild_entry(log_line).unwrap();
    assert_eq!(entry.package.package_id, "libz-sys v1.1.23");
    assert_eq!(entry.package.target, Some("build-script-build".to_string()));
}

#[test]
fn handles_missing_package_context() {
    let log_line =
        r#"dirty: EnvVarChanged { name: "CC", old_value: Some("gcc"), new_value: None }"#;

    let entry = parse_rebuild_entry(log_line).unwrap();
    assert_eq!(entry.package.package_id, "unknown");
    assert_eq!(entry.package.target, None);
}

#[test]
fn extracts_package_without_target() {
    let log_line =
        r"prepare_target{force=false package_id=serde v1.0.0}: dirty: TargetConfigurationChanged";

    let entry = parse_rebuild_entry(log_line).unwrap();
    assert_eq!(entry.package.package_id, "serde v1.0.0");
    assert_eq!(entry.package.target, None);
}

#[test]
fn handles_env_var_changed_with_none_to_some() {
    let log_line =
        r#"dirty: EnvVarChanged { name: "RUST_LOG", old_value: None, new_value: Some("debug") }"#;
    let result = parse_rebuild_reason(log_line);

    assert_eq!(
        result,
        Some(RebuildReason::EnvVarChanged {
            name: "RUST_LOG".to_string(),
            old_value: None,
            new_value: Some("debug".to_string()),
        })
    );
}

#[test]
fn handles_env_var_changed_with_complex_paths() {
    let log_line = r#"dirty: EnvVarChanged { name: "PATH", old_value: Some("/usr/bin:/bin"), new_value: Some("/nix/store/abc:/usr/bin:/bin") }"#;
    let result = parse_rebuild_reason(log_line);

    assert_eq!(
        result,
        Some(RebuildReason::EnvVarChanged {
            name: "PATH".to_string(),
            old_value: Some("/usr/bin:/bin".to_string()),
            new_value: Some("/nix/store/abc:/usr/bin:/bin".to_string()),
        })
    );
}

#[test]
fn handles_unit_dependency_info_changed() {
    let log_line = r#"dirty: UnitDependencyInfoChanged { old_name: "rusqlite", old_fingerprint: 5920731552898212716, new_name: "rusqlite", new_fingerprint: 7766129310588964256 }"#;
    let result = parse_rebuild_reason(log_line);

    assert_eq!(
        result,
        Some(RebuildReason::UnitDependencyInfoChanged {
            name: "rusqlite".to_string(),
            old_fingerprint: "5920731552898212716".to_string(),
            new_fingerprint: "7766129310588964256".to_string(),
            context: None,
        })
    );
}

#[test]
fn handles_target_configuration_changed() {
    let log_line = r"dirty: TargetConfigurationChanged";
    let result = parse_rebuild_reason(log_line);

    assert_eq!(result, Some(RebuildReason::TargetConfigurationChanged));
}

#[test]
fn handles_fs_status_outdated_with_file_change() {
    let log_line = r#"dirty: FsStatusOutdated(StaleItem(ChangedFile { reference: "/tmp/.tmp6t5LHE/target/debug/.fingerprint/target-test-d08e845c3c592b51/dep-bin-target-test", reference_mtime: FileTime { seconds: 1763310414, nanos: 599971397 }, stale: "/tmp/.tmp6t5LHE/src/main.rs", stale_mtime: FileTime { seconds: 1763310414, nanos: 663971117 } }))"#;
    let result = parse_rebuild_reason(log_line);

    assert_eq!(
        result,
        Some(RebuildReason::FileChanged {
            path: "/tmp/.tmp6t5LHE/src/main.rs".to_string(),
        })
    );
}

#[test]
fn returns_none_for_unknown_dirty_reason_format() {
    let log_line = r#"dirty: SomeUnknownReason { data: "value" }"#;
    let result = parse_rebuild_reason(log_line);

    assert_eq!(result, None);
}

#[test]
fn returns_none_for_lines_without_dirty_marker() {
    let log_line =
        r"    0.102058909s  INFO cargo::core::compiler::fingerprint: some other log message";
    let result = parse_rebuild_reason(log_line);

    assert_eq!(result, None);
}

#[test]
fn handles_malformed_input_gracefully() {
    let malformed_lines = vec![
        r#"dirty: EnvVarChanged { name: "CC", old_value: Some("gcc")"#,
        r#"dirty: EnvVarChanged { name: CC", old_value: Some("gcc"), new_value: None }"#,
        r#"dirty: UnitDependencyInfoChanged { old_name: "rusqlite""#,
        r"dirty:",
        r"",
    ];

    for line in malformed_lines {
        let result = parse_rebuild_reason(line);
        assert_eq!(result, None, "Expected None for malformed line: {line}");
    }
}

#[test]
fn handles_stale_dep_fingerprint_shape() {
    let log_line = r#"dirty: FsStatusOutdated(StaleDepFingerprint { name: "libz-sys" })"#;
    let result = parse_rebuild_reason(log_line);

    assert_eq!(
        result,
        Some(RebuildReason::UnitDependencyInfoChanged {
            name: "libz-sys".to_string(),
            old_fingerprint: String::new(),
            new_fingerprint: String::new(),
            context: None,
        })
    );
}
