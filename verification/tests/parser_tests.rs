use cargo_dirty::parser::{
    parse_env_var_changed, parse_option_string, parse_quoted_string, parse_rebuild_reason,
};
use cargo_dirty::reason::RebuildReason;

#[test]
fn test_parse_quoted_string() {
    let input = r#""hello world""#;
    assert_eq!(
        parse_quoted_string(input, 0),
        Some((input.chars().count(), "hello world".to_string()))
    );
}

#[test]
fn test_parse_option_string() {
    assert_eq!(parse_option_string("None", 0), Some((4, None)));
    assert_eq!(
        parse_option_string(r#"Some("value")"#, 0),
        Some((13, Some("value".to_string())))
    );
}

#[test]
fn test_parse_env_var_changed() {
    let input = r#"EnvVarChanged { name: "CC", old_value: Some("gcc"), new_value: None }"#;
    let result = parse_env_var_changed(input, 0).unwrap().1;

    if let RebuildReason::EnvVarChanged {
        name,
        old_value,
        new_value,
    } = result
    {
        assert_eq!(name, "CC");
        assert_eq!(old_value, Some("gcc".to_string()));
        assert_eq!(new_value, None);
    } else {
        panic!("Expected EnvVarChanged");
    }
}

#[test]
fn test_parse_rebuild_reason() {
    let log_line =
        r#"dirty: EnvVarChanged { name: "CC", old_value: Some("gcc"), new_value: None }"#;
    let result = parse_rebuild_reason(log_line);
    assert!(result.is_some());
}

#[test]
fn test_parse_env_var_change_some_to_none() {
    let log_line =
        r#"dirty: EnvVarChanged { name: "CC", old_value: Some("gcc"), new_value: None }"#;
    let result = parse_rebuild_reason(log_line);

    assert_eq!(
        result,
        Some(RebuildReason::EnvVarChanged {
            name: "CC".to_string(),
            old_value: Some("gcc".to_string()),
            new_value: None,
        })
    );
}

#[test]
fn test_parse_env_var_change_none_to_some() {
    let log_line =
        r#"dirty: EnvVarChanged { name: "RUST_LOG", old_value: None, new_value: Some("debug") }"#;
    let result = parse_rebuild_reason(log_line);

    assert_eq!(
        result,
        Some(RebuildReason::EnvVarChanged {
            name: "RUST_LOG".to_string(),
            old_value: None,
            new_value: Some("debug".to_string()),
        })
    );
}

#[test]
fn test_parse_dependency_change() {
    let log_line = r#"dirty: UnitDependencyInfoChanged { old_name: "rusqlite", old_fingerprint: 5920731552898212716, new_name: "rusqlite", new_fingerprint: 7766129310588964256 }"#;
    let result = parse_rebuild_reason(log_line);

    assert_eq!(
        result,
        Some(RebuildReason::UnitDependencyInfoChanged {
            name: "rusqlite".to_string(),
            old_fingerprint: "5920731552898212716".to_string(),
            new_fingerprint: "7766129310588964256".to_string(),
            context: None,
        })
    );
}

#[test]
fn test_parse_target_configuration_changed() {
    let log_line = r"dirty: TargetConfigurationChanged";
    let result = parse_rebuild_reason(log_line);

    assert_eq!(result, Some(RebuildReason::TargetConfigurationChanged));
}

#[test]
fn test_parse_unknown_reason() {
    let log_line = r#"dirty: SomeUnknownReason { data: "value" }"#;
    let result = parse_rebuild_reason(log_line);

    assert_eq!(result, None);
}

#[test]
fn test_parse_complex_log_line() {
    let log_line = r#"    0.102058909s  INFO prepare_target{force=false package_id=libz-sys v1.1.23 target="build-script-build"}: cargo::core::compiler::fingerprint:     dirty: EnvVarChanged { name: "CC", old_value: Some("gcc"), new_value: None }"#;
    let result = parse_rebuild_reason(log_line);

    assert_eq!(
        result,
        Some(RebuildReason::EnvVarChanged {
            name: "CC".to_string(),
            old_value: Some("gcc".to_string()),
            new_value: None,
        })
    );
}

#[test]
fn test_parse_env_var_with_complex_values() {
    let log_line = r#"dirty: EnvVarChanged { name: "PATH", old_value: Some("/usr/bin:/bin"), new_value: Some("/nix/store/abc:/usr/bin:/bin") }"#;
    let result = parse_rebuild_reason(log_line);

    assert_eq!(
        result,
        Some(RebuildReason::EnvVarChanged {
            name: "PATH".to_string(),
            old_value: Some("/usr/bin:/bin".to_string()),
            new_value: Some("/nix/store/abc:/usr/bin:/bin".to_string()),
        })
    );
}

#[test]
fn test_parse_fs_status_outdated() {
    let log_line = r#"dirty: FsStatusOutdated(StaleItem(ChangedFile { reference: "/tmp/.tmp6t5LHE/target/debug/.fingerprint/target-test-d08e845c3c592b51/dep-bin-target-test", reference_mtime: FileTime { seconds: 1763310414, nanos: 599971397 }, stale: "/tmp/.tmp6t5LHE/src/main.rs", stale_mtime: FileTime { seconds: 1763310414, nanos: 663971117 } }))"#;
    let result = parse_rebuild_reason(log_line);

    assert_eq!(
        result,
        Some(RebuildReason::FileChanged {
            path: "/tmp/.tmp6t5LHE/src/main.rs".to_string(),
        })
    );
}
