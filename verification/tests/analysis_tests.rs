use cargo_dirty::config::{process_log_line, Config};
use cargo_dirty::graph::{normalize_crate_name, PackageTarget, RebuildGraph, RebuildNode};
use cargo_dirty::reason::{reason_dedup_key, RebuildReason};
use cargo_dirty::report::{
    build_rebuild_trees, optimization_tips, summary_breakdown, RebuildAnalysis,
};

#[test]
fn normalization_identifies_hyphen_and_underscore() {
    assert_eq!(
        normalize_crate_name("libz-sys"),
        normalize_crate_name("libz_sys")
    );
    assert_eq!(normalize_crate_name("libz-sys"), "libz_sys");
    assert_eq!(normalize_crate_name(""), "");
    // applying it twice changes nothing
    let once = normalize_crate_name("a-b_c-d");
    assert_eq!(normalize_crate_name(&once), once);
}

#[test]
fn env_var_scenario_attributes_cascade_to_root_cause() {
    let lines = [
        r#"[package_id=libz-sys v1.1.23: dirty: EnvVarChanged{name:"CC", old_value:Some("gcc"), new_value:None}]"#,
        r#"[package_id=rusqlite v0.31.0: dirty: UnitDependencyInfoChanged{old_name:"libz-sys", old_fingerprint:123, new_name:"libz-sys", new_fingerprint:456}]"#,
    ];

    let mut graph = RebuildGraph::new();
    for line in lines {
        let entry = cargo_dirty::parse_rebuild_entry(line).unwrap();
        graph.add_node(RebuildNode::new(entry.package, entry.reason));
    }

    let roots = graph.root_causes();
    assert_eq!(roots.len(), 1);
    assert!(matches!(
        roots[0].reason,
        RebuildReason::EnvVarChanged { .. }
    ));

    let chains = graph.root_cause_chains();
    assert_eq!(chains.len(), 1);
    assert_eq!(chains[0].affected_packages.len(), 1);
    assert!(chains[0].affected_packages[0]
        .package
        .package_id
        .starts_with("rusqlite"));
    assert_eq!(chains[0].total_rebuilds(), 2);
}

#[test]
fn target_config_without_package_becomes_unknown_root() {
    let line = "dirty: TargetConfigurationChanged";
    let entry = cargo_dirty::parse_rebuild_entry(line).unwrap();
    assert_eq!(entry.package.package_id, "unknown");

    let mut graph = RebuildGraph::new();
    graph.add_node(RebuildNode::new(entry.package, entry.reason));
    let chains = graph.root_cause_chains();
    assert_eq!(chains.len(), 1);
    assert_eq!(chains[0].root_cause.package.package_id, "unknown");
    assert_eq!(chains[0].affected_packages.len(), 0);
}

#[test]
fn fs_status_scenario_discards_file_times() {
    let line = r#"dirty: FsStatusOutdated(StaleItem(ChangedFile{reference:"...", reference_mtime:FileTime{seconds:1,nanos:2}, stale:"/src/main.rs", stale_mtime:FileTime{seconds:3,nanos:4}}))"#;
    let result = cargo_dirty::parse_rebuild_reason(line);
    assert_eq!(
        result,
        Some(RebuildReason::FileChanged {
            path: "/src/main.rs".to_string(),
        })
    );
}

#[test]
fn process_log_line_filters_and_deduplicates() {
    let mut graph = RebuildGraph::new();

    // not from the fingerprint subsystem: ignored
    assert!(!process_log_line(
        &mut graph,
        r#"dirty: EnvVarChanged { name: "CC", old_value: None, new_value: None }"#
    ));
    assert!(graph.is_empty());

    let line = r#"fingerprint: prepare_target{package_id=libz-sys v1.1.23}: dirty: EnvVarChanged { name: "CC", old_value: Some("gcc"), new_value: None }"#;
    assert!(process_log_line(&mut graph, line));
    assert_eq!(graph.len(), 1);

    // the same logical event again, with different values: deduplicated,
    // because the reason key is the variable name, not its values
    let again = r#"fingerprint: prepare_target{package_id=libz-sys v1.1.23}: dirty: EnvVarChanged { name: "CC", old_value: Some("cc"), new_value: Some("clang") }"#;
    assert!(process_log_line(&mut graph, again));
    assert_eq!(graph.len(), 1);

    // a stale: line is a candidate but parses to nothing
    assert!(process_log_line(
        &mut graph,
        "fingerprint: stale: changed /src/lib.rs"
    ));
    assert_eq!(graph.len(), 1);
}

#[test]
fn reason_dedup_keys_ignore_volatile_values() {
    let a = RebuildReason::EnvVarChanged {
        name: "CC".to_string(),
        old_value: Some("gcc".to_string()),
        new_value: None,
    };
    let b = RebuildReason::EnvVarChanged {
        name: "CC".to_string(),
        old_value: None,
        new_value: Some("clang".to_string()),
    };
    assert_eq!(reason_dedup_key(&a), "env:CC");
    assert_eq!(reason_dedup_key(&a), reason_dedup_key(&b));

    let dep = RebuildReason::UnitDependencyInfoChanged {
        name: "libz-sys".to_string(),
        old_fingerprint: "123".to_string(),
        new_fingerprint: "456".to_string(),
        context: None,
    };
    assert_eq!(reason_dedup_key(&dep), "dep:libz-sys");

    assert_eq!(
        reason_dedup_key(&RebuildReason::TargetConfigurationChanged),
        "config"
    );
    assert_eq!(
        reason_dedup_key(&RebuildReason::ProfileConfigurationChanged),
        "profile"
    );
    assert_eq!(
        reason_dedup_key(&RebuildReason::RustflagsChanged {
            old: vec![],
            new: vec![]
        }),
        "rustflags"
    );
    assert_eq!(
        reason_dedup_key(&RebuildReason::FeaturesChanged {
            old: "a".to_string(),
            new: "b".to_string()
        }),
        "features"
    );
    assert_eq!(
        reason_dedup_key(&RebuildReason::FileChanged {
            path: "/a/b".to_string()
        }),
        "file:/a/b"
    );
    assert_eq!(
        reason_dedup_key(&RebuildReason::Unknown("x".to_string())),
        "unknown:x"
    );
}

#[test]
fn analysis_report_counts_root_causes() {
    let mut graph = RebuildGraph::new();
    graph.add_node(RebuildNode::new(
        PackageTarget::new("libz-sys v1.1.23".to_string(), None),
        RebuildReason::EnvVarChanged {
            name: "CC".to_string(),
            old_value: Some("gcc".to_string()),
            new_value: None,
        },
    ));

    let report = graph.analysis_report();
    assert_eq!(report, "\n1 root cause:\n  libz-sys env:CC ('gcc' -> unset)");

    graph.add_node(RebuildNode::new(
        PackageTarget::new("serde v1.0.0".to_string(), Some("lib".to_string())),
        RebuildReason::ProfileConfigurationChanged,
    ));

    let report = graph.analysis_report();
    assert!(report.starts_with("\n2 root causes:"));
    assert!(report.contains("\n  serde [lib] profile changed"));
}

#[test]
fn rebuild_analysis_summarizes_by_kind() {
    let mut graph = RebuildGraph::new();
    graph.add_node(RebuildNode::new(
        PackageTarget::new("a v1.0.0".to_string(), None),
        RebuildReason::EnvVarChanged {
            name: "CC".to_string(),
            old_value: None,
            new_value: None,
        },
    ));
    graph.add_node(RebuildNode::new(
        PackageTarget::new("b v1.0.0".to_string(), None),
        RebuildReason::UnitDependencyInfoChanged {
            name: "a".to_string(),
            old_fingerprint: "1".to_string(),
            new_fingerprint: "2".to_string(),
            context: None,
        },
    ));
    graph.add_node(RebuildNode::new(
        PackageTarget::new("c v1.0.0".to_string(), None),
        RebuildReason::FileChanged {
            path: "/src/lib.rs".to_string(),
        },
    ));

    let analysis = RebuildAnalysis::from_graph(&graph);
    assert_eq!(analysis.total_rebuilds, 3);
    assert_eq!(analysis.root_cause_count, 2);
    assert_eq!(analysis.cascade_count, 1);
    assert_eq!(analysis.root_causes.len(), 2);
    assert_eq!(analysis.root_cause_chains.len(), 2);
    assert_eq!(analysis.summary.env_vars, 1);
    assert_eq!(analysis.summary.dependencies, 1);
    assert_eq!(analysis.summary.target_configs, 0);
    assert_eq!(analysis.summary.files, 1);
}

#[test]
fn rebuild_trees_flatten_chains() {
    let mut graph = RebuildGraph::new();
    graph.add_node(RebuildNode::new(
        PackageTarget::new("libz-sys v1.1.23".to_string(), None),
        RebuildReason::EnvVarChanged {
            name: "CC".to_string(),
            old_value: Some("gcc".to_string()),
            new_value: None,
        },
    ));
    graph.add_node(RebuildNode::new(
        PackageTarget::new("rusqlite v0.31.0".to_string(), None),
        RebuildReason::UnitDependencyInfoChanged {
            name: "libz-sys".to_string(),
            old_fingerprint: "123".to_string(),
            new_fingerprint: "456".to_string(),
            context: None,
        },
    ));

    let trees = build_rebuild_trees(&graph);
    assert_eq!(trees.len(), 1);
    assert_eq!(trees[0].package, "libz-sys v1.1.23");
    assert_eq!(trees[0].reason, "env:CC");
    assert_eq!(trees[0].cascades.len(), 1);
    assert_eq!(trees[0].cascades[0].package, "rusqlite v0.31.0");
    assert_eq!(trees[0].cascades[0].reason, "dep:libz-sys");
    assert!(trees[0].cascades[0].cascades.is_empty());

    // an empty graph serializes as an empty array of trees
    let empty = RebuildGraph::new();
    assert!(build_rebuild_trees(&empty).is_empty());
}

#[test]
fn parses_env_var_changed_with_both_values_absent() {
    let log_line = r#"dirty: EnvVarChanged { name: "CC", old_value: None, new_value: None }"#;
    let result = cargo_dirty::parse_rebuild_reason(log_line);

    assert_eq!(
        result,
        Some(RebuildReason::EnvVarChanged {
            name: "CC".to_string(),
            old_value: None,
            new_value: None,
        })
    );
}

#[test]
fn breakdown_pluralizes_per_kind() {
    assert_eq!(summary_breakdown(0, 0, 0, 0), "");
    assert_eq!(
        summary_breakdown(1, 0, 0, 0),
        "\nSummary:\n   • 1 env variable"
    );
    assert_eq!(
        summary_breakdown(2, 1, 0, 0),
        "\nSummary:\n   • 2 env variables\n   • 1 dependency"
    );
    assert_eq!(
        summary_breakdown(0, 3, 2, 12),
        "\nSummary:\n   • 3 dependencies\n   • 2 config changes\n   • 12 files"
    );
}

#[test]
fn tips_depend_on_what_dominates() {
    assert_eq!(optimization_tips(0, 0, 1), "");
    assert_eq!(
        optimization_tips(2, 0, 2),
        "\nTips:\n   • Use direnv or nix-shell for consistent environments"
    );
    assert_eq!(
        optimization_tips(0, 1, 1),
        "\nTips:\n   • Try 'cargo build --keep-going' for better CI performance\n   • Consider workspace dependencies to reduce cascades"
    );
    assert_eq!(
        optimization_tips(0, 0, 11),
        "\nTips:\n   • Many triggers detected - consider incremental changes"
    );
}

#[test]
fn cargo_command_joins_pass_through_arguments() {
    let plain = Config {
        path: ".".to_string(),
        verbose: false,
        json: false,
        command: "check".to_string(),
        cargo_args: vec![],
    };
    assert_eq!(plain.cargo_command(), "check");

    let with_args = Config {
        path: ".".to_string(),
        verbose: true,
        json: true,
        command: "build".to_string(),
        cargo_args: vec!["--release".to_string(), "--workspace".to_string()],
    };
    assert_eq!(with_args.cargo_command(), "build --release --workspace");
}

#[test]
fn package_target_display_composes_name_and_target() {
    let unit = PackageTarget::new(
        "libz-sys v1.1.23".to_string(),
        Some("build-script-build".to_string()),
    );
    assert_eq!(unit.display_string(), "libz-sys [build-script-build]");

    let bare = PackageTarget::new("serde v1.0.0".to_string(), None);
    assert_eq!(bare.display_string(), "serde");
}
