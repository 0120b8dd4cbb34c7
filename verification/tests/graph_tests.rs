use cargo_dirty::graph::{PackageTarget, RebuildGraph, RebuildNode};
use cargo_dirty::reason::RebuildReason;

#[test]
fn identifies_root_causes() {
    let mut graph = RebuildGraph::new();

    graph.add_node(RebuildNode::new(
        PackageTarget::new(
            "libz-sys v1.1.23".to_string(),
            Some("build-script-build".to_string()),
        ),
        RebuildReason::EnvVarChanged {
            name: "CC".to_string(),
            old_value: Some("gcc".to_string()),
            new_value: None,
        },
    ));

    graph.add_node(RebuildNode::new(
        PackageTarget::new("rusqlite v0.31.0".to_string(), None),
        RebuildReason::UnitDependencyInfoChanged {
            name: "libz-sys".to_string(),
            old_fingerprint: "123".to_string(),
            new_fingerprint: "456".to_string(),
            context: None,
        },
    ));

    let roots = graph.root_causes();
    assert_eq!(roots.len(), 1);
    assert!(matches!(
        roots[0].reason,
        RebuildReason::EnvVarChanged { .. }
    ));
}

#[test]
fn finds_causal_chains() {
    let mut graph = RebuildGraph::new();

    graph.add_node(RebuildNode::new(
        PackageTarget::new("libz-sys v1.1.23".to_string(), None),
        RebuildReason::EnvVarChanged {
            name: "CC".to_string(),
            old_value: Some("gcc".to_string()),
            new_value: None,
        },
    ));

    graph.add_node(RebuildNode::new(
        PackageTarget::new("rusqlite v0.31.0".to_string(), None),
        RebuildReason::UnitDependencyInfoChanged {
            name: "libz-sys".to_string(),
            old_fingerprint: "123".to_string(),
            new_fingerprint: "456".to_string(),
            context: None,
        },
    ));

    let chains = graph.root_cause_chains();
    assert_eq!(chains.len(), 1);
    assert_eq!(chains[0].total_rebuilds(), 2);
}

#[test]
fn builds_and_analyzes_rebuild_graph() {
    let mut graph = RebuildGraph::new();

    graph.add_node(RebuildNode::new(
        PackageTarget::new("libz-sys v1.1.23".to_string(), None),
        RebuildReason::EnvVarChanged {
            name: "CC".to_string(),
            old_value: Some("gcc".to_string()),
            new_value: None,
        },
    ));

    graph.add_node(RebuildNode::new(
        PackageTarget::new("rusqlite v0.31.0".to_string(), None),
        RebuildReason::UnitDependencyInfoChanged {
            name: "libz-sys".to_string(),
            old_fingerprint: "123".to_string(),
            new_fingerprint: "456".to_string(),
            context: None,
        },
    ));

    let roots = graph.root_causes();
    assert_eq!(roots.len(), 1);
    assert!(matches!(
        roots[0].reason,
        RebuildReason::EnvVarChanged { .. }
    ));

    let chains = graph.root_cause_chains();
    assert_eq!(chains.len(), 1);
    assert_eq!(chains[0].total_rebuilds(), 2);
}

#[test]
fn deduplicates_repeated_observations() {
    let mut graph = RebuildGraph::new();

    let first = graph.add_node(RebuildNode::new(
        PackageTarget::new("libz-sys v1.1.23".to_string(), None),
        RebuildReason::UnitDependencyInfoChanged {
            name: "zlib".to_string(),
            old_fingerprint: "123".to_string(),
            new_fingerprint: "456".to_string(),
            context: None,
        },
    ));
    assert_eq!(first, Some(0));

    // Same normalized package, same dependency, different fingerprints:
    // the same logical event, so nothing is stored.
    let second = graph.add_node(RebuildNode::new(
        PackageTarget::new("libz_sys v1.1.23".to_string(), None),
        RebuildReason::UnitDependencyInfoChanged {
            name: "zlib".to_string(),
            old_fingerprint: "789".to_string(),
            new_fingerprint: "999".to_string(),
            context: None,
        },
    ));
    assert_eq!(second, None);
    assert_eq!(graph.len(), 1);
}

#[test]
fn cascade_through_intermediate_package() {
    let mut graph = RebuildGraph::new();

    graph.add_node(RebuildNode::new(
        PackageTarget::new("base v1.0.0".to_string(), None),
        RebuildReason::FileChanged {
            path: "/src/lib.rs".to_string(),
        },
    ));
    graph.add_node(RebuildNode::new(
        PackageTarget::new("middle v1.0.0".to_string(), None),
        RebuildReason::UnitDependencyInfoChanged {
            name: "base".to_string(),
            old_fingerprint: "1".to_string(),
            new_fingerprint: "2".to_string(),
            context: None,
        },
    ));
    graph.add_node(RebuildNode::new(
        PackageTarget::new("top v1.0.0".to_string(), None),
        RebuildReason::UnitDependencyInfoChanged {
            name: "middle".to_string(),
            old_fingerprint: "3".to_string(),
            new_fingerprint: "4".to_string(),
            context: None,
        },
    ));

    let chains = graph.root_cause_chains();
    assert_eq!(chains.len(), 1);
    assert_eq!(chains[0].root_cause.package.package_id, "base v1.0.0");
    assert_eq!(chains[0].affected_packages.len(), 2);
    assert_eq!(chains[0].total_rebuilds(), 3);
}

#[test]
fn causal_chain_finds_first_inserted_root() {
    let mut graph = RebuildGraph::new();

    graph.add_node(RebuildNode::new(
        PackageTarget::new("libz-sys v1.1.23".to_string(), None),
        RebuildReason::EnvVarChanged {
            name: "CC".to_string(),
            old_value: None,
            new_value: Some("clang".to_string()),
        },
    ));
    graph.add_node(RebuildNode::new(
        PackageTarget::new("rusqlite v0.31.0".to_string(), None),
        RebuildReason::UnitDependencyInfoChanged {
            name: "libz_sys".to_string(),
            old_fingerprint: "1".to_string(),
            new_fingerprint: "2".to_string(),
            context: None,
        },
    ));

    // The cascade names the dependency with the other spelling; the chain
    // still leads back to the stored root cause.
    let chain = graph.causal_chain(1);
    assert_eq!(chain.len(), 2);
    assert_eq!(chain[0].package.package_id, "libz-sys v1.1.23");
    assert_eq!(chain[1].package.package_id, "rusqlite v0.31.0");

    let root_chain = graph.causal_chain(0);
    assert_eq!(root_chain.len(), 1);
}

#[test]
fn node_reachable_from_two_roots_appears_in_both_chains() {
    let mut graph = RebuildGraph::new();

    // two distinct root causes for the same package
    graph.add_node(RebuildNode::new(
        PackageTarget::new("libz-sys v1.1.23".to_string(), None),
        RebuildReason::EnvVarChanged {
            name: "CC".to_string(),
            old_value: None,
            new_value: Some("clang".to_string()),
        },
    ));
    graph.add_node(RebuildNode::new(
        PackageTarget::new("libz-sys v1.1.23".to_string(), None),
        RebuildReason::FileChanged {
            path: "/src/lib.rs".to_string(),
        },
    ));
    graph.add_node(RebuildNode::new(
        PackageTarget::new("rusqlite v0.31.0".to_string(), None),
        RebuildReason::UnitDependencyInfoChanged {
            name: "libz-sys".to_string(),
            old_fingerprint: "1".to_string(),
            new_fingerprint: "2".to_string(),
            context: None,
        },
    ));

    let chains = graph.root_cause_chains();
    assert_eq!(chains.len(), 2);
    for chain in &chains {
        assert_eq!(chain.affected_packages.len(), 1);
        assert_eq!(
            chain.affected_packages[0].package.package_id,
            "rusqlite v0.31.0"
        );
    }
}

#[test]
fn empty_graph_reports_no_triggers() {
    let graph = RebuildGraph::new();
    assert!(graph.is_empty());
    assert_eq!(graph.len(), 0);
    assert_eq!(graph.root_causes().len(), 0);
    assert_eq!(graph.root_cause_chains().len(), 0);
    assert_eq!(graph.analysis_report(), "No rebuild triggers detected.");
}

#[test]
fn unknown_package_forms_root_cause_without_cascades() {
    let mut graph = RebuildGraph::new();
    graph.add_node(RebuildNode::new(
        PackageTarget::unknown(),
        RebuildReason::TargetConfigurationChanged,
    ));

    let chains = graph.root_cause_chains();
    assert_eq!(chains.len(), 1);
    assert_eq!(chains[0].root_cause.package.package_id, "unknown");
    assert!(chains[0].root_cause.package.target.is_none());
    assert_eq!(chains[0].affected_packages.len(), 0);
}
