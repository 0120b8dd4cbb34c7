use cargo_dirty::reason::{DependencyChangeContext, RebuildReason};

#[test]
fn test_rebuild_reason_display() {
    let env_change = RebuildReason::EnvVarChanged {
        name: "CC".to_string(),
        old_value: Some("gcc".to_string()),
        new_value: None,
    };

    assert!(env_change.explanation().contains("🔧 ENVIRONMENT VARIABLE"));
    assert!(env_change.explanation().contains("CC"));

    let dep_change = RebuildReason::UnitDependencyInfoChanged {
        name: "rusqlite".to_string(),
        old_fingerprint: "123".to_string(),
        new_fingerprint: "456".to_string(),
        context: None,
    };

    assert!(dep_change.explanation().contains("📦 DEPENDENCY"));
    assert!(dep_change.explanation().contains("rusqlite"));

    let target_change = RebuildReason::TargetConfigurationChanged;
    assert!(target_change
        .explanation()
        .contains("⚙️  TARGET CONFIGURATION"));
}

#[test]
fn test_enhanced_explanations() {
    let rustflags_change = RebuildReason::RustflagsChanged {
        old: vec!["--cfg".to_string(), "test".to_string()],
        new: vec![
            "--cfg".to_string(),
            "test".to_string(),
            "-C".to_string(),
            "target-cpu=native".to_string(),
        ],
    };

    let explanation = rustflags_change.explanation();
    assert!(explanation.contains("🚩 RUSTFLAGS CHANGED"));
    assert!(explanation.contains("--cfg test"));
    assert!(explanation.contains("target-cpu=native"));

    let features_change = RebuildReason::FeaturesChanged {
        old: "default".to_string(),
        new: "default,serde".to_string(),
    };

    let explanation = features_change.explanation();
    assert!(explanation.contains("🔧 FEATURES CHANGED"));
    assert!(explanation.contains("'default' → 'default,serde'"));

    let profile_change = RebuildReason::ProfileConfigurationChanged;
    let explanation = profile_change.explanation();
    assert!(explanation.contains("📊 PROFILE CONFIGURATION"));
}

#[test]
fn test_dependency_context_display() {
    let dep_with_context = RebuildReason::UnitDependencyInfoChanged {
        name: "libz-sys".to_string(),
        old_fingerprint: "123".to_string(),
        new_fingerprint: "456".to_string(),
        context: Some(DependencyChangeContext {
            package_id: Some("libz-sys v1.1.23".to_string()),
            target_type: Some("build-script-build".to_string()),
            root_cause: Some("CC environment variable changed".to_string()),
        }),
    };

    let explanation = dep_with_context.explanation();
    assert!(explanation.contains("📦 DEPENDENCY"));
    assert!(explanation.contains("libz-sys"));
    assert!(explanation.contains("🔍 Root cause: CC environment variable changed"));
    assert!(explanation.contains("📋 Package: libz-sys v1.1.23"));
    assert!(explanation.contains("🎯 Target: build-script-build"));
}

#[test]
fn displays_environment_variable_changes() {
    let env_change = RebuildReason::EnvVarChanged {
        name: "CC".to_string(),
        old_value: Some("gcc".to_string()),
        new_value: None,
    };

    assert!(env_change.summary().contains("env:CC"));
    assert!(env_change.summary().contains("'gcc' -> unset"));

    let dep_change = RebuildReason::UnitDependencyInfoChanged {
        name: "rusqlite".to_string(),
        old_fingerprint: "123".to_string(),
        new_fingerprint: "456".to_string(),
        context: None,
    };

    assert!(dep_change.summary().contains("dep:rusqlite"));

    let target_change = RebuildReason::TargetConfigurationChanged;
    assert!(target_change.summary().contains("target config changed"));
}

#[test]
fn displays_features_and_profile_changes() {
    let features_change = RebuildReason::FeaturesChanged {
        old: "default".to_string(),
        new: "default,serde".to_string(),
    };

    assert!(features_change.summary().contains("features"));
    assert!(features_change.summary().contains("default"));
    assert!(features_change.summary().contains("serde"));

    let profile_change = RebuildReason::ProfileConfigurationChanged;
    assert!(profile_change.summary().contains("profile changed"));
}

#[test]
fn displays_dependency_name() {
    let dep_with_context = RebuildReason::UnitDependencyInfoChanged {
        name: "libz-sys".to_string(),
        old_fingerprint: "123".to_string(),
        new_fingerprint: "456".to_string(),
        context: Some(DependencyChangeContext {
            package_id: Some("libz-sys v1.1.23".to_string()),
            target_type: Some("build-script-build".to_string()),
            root_cause: Some("CC environment variable changed".to_string()),
        }),
    };

    assert!(dep_with_context.summary().contains("dep:libz-sys"));
}

#[test]
fn displays_rustflags_changed() {
    let rustflags_change = RebuildReason::RustflagsChanged {
        old: vec!["--cfg".to_string(), "test".to_string()],
        new: vec![
            "--cfg".to_string(),
            "test".to_string(),
            "-C".to_string(),
            "target-cpu=native".to_string(),
        ],
    };

    assert!(rustflags_change.summary().contains("rustflags changed"));
}

#[test]
fn summarizes_file_changes_by_their_last_components() {
    let file_change = RebuildReason::FileChanged {
        path: "/tmp/project/src/main.rs".to_string(),
    };
    assert_eq!(file_change.summary(), "file:src/main.rs");

    let short = RebuildReason::FileChanged {
        path: "main.rs".to_string(),
    };
    assert_eq!(short.summary(), "file:main.rs");
}

#[test]
fn summarizes_every_env_change_shape() {
    let both = RebuildReason::EnvVarChanged {
        name: "CC".to_string(),
        old_value: Some("gcc".to_string()),
        new_value: Some("clang".to_string()),
    };
    assert_eq!(both.summary(), "env:CC ('gcc' -> 'clang')");

    let set = RebuildReason::EnvVarChanged {
        name: "CC".to_string(),
        old_value: None,
        new_value: Some("clang".to_string()),
    };
    assert_eq!(set.summary(), "env:CC (unset -> 'clang')");

    let neither = RebuildReason::EnvVarChanged {
        name: "CC".to_string(),
        old_value: None,
        new_value: None,
    };
    assert_eq!(neither.summary(), "env:CC (changed)");

    let unknown = RebuildReason::Unknown("mystery".to_string());
    assert_eq!(unknown.summary(), "unknown:mystery");
}
