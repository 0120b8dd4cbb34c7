//! Derived report structures: the nested cascade trees handed to the JSON
//! layer, the aggregate analysis with its summary counts, and the
//! human-readable report text.

use vstd::prelude::*;
use vstd::string::StringExecFns;

use crate::graph::RebuildGraph;
use crate::graph::RebuildNode;
use crate::graph::RebuildNodeModel;
use crate::graph::RootCauseChain;
use crate::graph::RootCauseChainModel;
use crate::graph::spec_chains;
use crate::graph::spec_display_package;
use crate::graph::spec_root_causes;
use crate::graph::spec_roots_prefix;
use crate::reason::reason_dedup_key;
use crate::reason::spec_dedup_key;
use crate::reason::spec_summary;
use crate::text::spec_dec_digits;
use crate::text::usize_to_string;

verus! {

/// A root cause with its direct cascades, flattened to display strings:
/// the shape in which one analysis run is serialized.
#[derive(Debug)]
pub struct RebuildTree {
    pub package: String,
    pub reason: String,
    pub cascades: Vec<RebuildTree>,
}

/// A leaf tree carries one affected package: its package id, its reason
/// key, and no further cascades.
pub open spec fn spec_leaf_matches(t: RebuildTree, n: RebuildNodeModel) -> bool {
    &&& t.package@ == n.package.package_id
    &&& t.reason@ == spec_dedup_key(n.reason)
    &&& t.cascades@.len() == 0
}

/// A tree renders one chain: the root cause on top, one leaf per affected
/// package, in order.
pub open spec fn spec_tree_matches_chain(t: RebuildTree, ch: RootCauseChainModel) -> bool {
    &&& t.package@ == ch.root_cause.package.package_id
    &&& t.reason@ == spec_dedup_key(ch.root_cause.reason)
    &&& t.cascades@.len() == ch.affected_packages.len()
    &&& forall|j: int|
        0 <= j < ch.affected_packages.len() ==> spec_leaf_matches(
            #[trigger] t.cascades@[j],
            ch.affected_packages[j],
        )
}

impl RebuildTree {
    fn from_chain(chain: &RootCauseChain) -> (t: RebuildTree)
        ensures
            spec_tree_matches_chain(t, chain@),
    {
        let n = chain.affected_packages.len();
        let mut cascades: Vec<RebuildTree> = Vec::new();
        let mut i: usize = 0;
        while i < n
            invariant
                n == chain.affected_packages.len(),
                0 <= i <= n,
                cascades@.len() == i,
                forall|j: int|
                    0 <= j < i ==> spec_leaf_matches(
                        #[trigger] cascades@[j],
                        chain@.affected_packages[j],
                    ),
            decreases n - i,
        {
            let node = &chain.affected_packages[i];
            cascades.push(
                RebuildTree {
                    package: node.package.package_id.clone(),
                    reason: reason_dedup_key(&node.reason),
                    cascades: Vec::new(),
                },
            );
            i += 1;
        }
        RebuildTree {
            package: chain.root_cause.package.package_id.clone(),
            reason: reason_dedup_key(&chain.root_cause.reason),
            cascades,
        }
    }
}

/// One tree per root cause, in insertion order.
pub fn build_rebuild_trees(graph: &RebuildGraph) -> (r: Vec<RebuildTree>)
    ensures
        r@.len() == spec_chains(graph@).len(),
        forall|i: int|
            0 <= i < r@.len() ==> spec_tree_matches_chain(#[trigger] r@[i], spec_chains(graph@)[i]),
{
    let chains = graph.root_cause_chains();
    let n = chains.len();
    let mut r: Vec<RebuildTree> = Vec::new();
    let mut i: usize = 0;
    while i < n
        invariant
            n == chains.len(),
            chains.deep_view() == spec_chains(graph@),
            0 <= i <= n,
            r@.len() == i,
            forall|j: int|
                0 <= j < i ==> spec_tree_matches_chain(#[trigger] r@[j], spec_chains(graph@)[j]),
        decreases n - i,
    {
        r.push(RebuildTree::from_chain(&chains[i]));
        i += 1;
    }
    r
}

/// How many of the first `k` nodes carry an env-var reason.
pub open spec fn spec_count_env(nodes: Seq<RebuildNodeModel>, k: int) -> int
    decreases k,
{
    if k <= 0 {
        0
    } else {
        spec_count_env(nodes, k - 1) + if nodes[k - 1].reason is EnvVarChanged {
            1int
        } else {
            0int
        }
    }
}

/// How many of the first `k` nodes carry a dependency-change reason.
pub open spec fn spec_count_deps(nodes: Seq<RebuildNodeModel>, k: int) -> int
    decreases k,
{
    if k <= 0 {
        0
    } else {
        spec_count_deps(nodes, k - 1) + if nodes[k - 1].reason is UnitDependencyInfoChanged {
            1int
        } else {
            0int
        }
    }
}

/// How many of the first `k` nodes carry a target-configuration reason.
pub open spec fn spec_count_targets(nodes: Seq<RebuildNodeModel>, k: int) -> int
    decreases k,
{
    if k <= 0 {
        0
    } else {
        spec_count_targets(nodes, k - 1) + if nodes[k - 1].reason is TargetConfigurationChanged {
            1int
        } else {
            0int
        }
    }
}

/// How many of the first `k` nodes carry a file-change reason.
pub open spec fn spec_count_files(nodes: Seq<RebuildNodeModel>, k: int) -> int
    decreases k,
{
    if k <= 0 {
        0
    } else {
        spec_count_files(nodes, k - 1) + if nodes[k - 1].reason is FileChanged {
            1int
        } else {
            0int
        }
    }
}

/// There are never more root causes among the first `k` nodes than nodes.
pub proof fn lemma_roots_prefix_len(nodes: Seq<RebuildNodeModel>, k: int)
    ensures
        spec_roots_prefix(nodes, k).len() <= (if k < 0 {
            0
        } else {
            k
        }),
    decreases k,
{
    if k > 0 {
        lemma_roots_prefix_len(nodes, k - 1);
    }
}

/// Counts of stored nodes by reason kind.
#[derive(Debug)]
pub struct RebuildSummary {
    pub env_vars: usize,
    pub dependencies: usize,
    pub target_configs: usize,
    pub files: usize,
}

/// The aggregate analysis of one run: totals, the root causes, their
/// chains, and the per-kind summary.
#[derive(Debug)]
pub struct RebuildAnalysis {
    pub total_rebuilds: usize,
    pub root_cause_count: usize,
    pub cascade_count: usize,
    pub root_causes: Vec<RebuildNode>,
    pub root_cause_chains: Vec<RootCauseChain>,
    pub summary: RebuildSummary,
}

impl RebuildAnalysis {
    /// Builds the aggregate analysis of a graph.
    pub fn from_graph(graph: &RebuildGraph) -> (r: RebuildAnalysis)
        ensures
            r.total_rebuilds == graph@.len(),
            r.root_cause_count == spec_root_causes(graph@).len(),
            r.cascade_count == graph@.len() - spec_root_causes(graph@).len(),
            r.root_causes.deep_view() == spec_root_causes(graph@),
            r.root_cause_chains.deep_view() == spec_chains(graph@),
            r.summary.env_vars == spec_count_env(graph@, graph@.len() as int),
            r.summary.dependencies == spec_count_deps(graph@, graph@.len() as int),
            r.summary.target_configs == spec_count_targets(graph@, graph@.len() as int),
            r.summary.files == spec_count_files(graph@, graph@.len() as int),
    {
        let borrowed = graph.root_causes();
        let rn = borrowed.len();
        let mut root_causes: Vec<RebuildNode> = Vec::new();
        let mut i: usize = 0;
        while i < rn
            invariant
                rn == borrowed.len(),
                borrowed.deep_view() == spec_root_causes(graph@),
                0 <= i <= rn,
                root_causes.deep_view() =~= borrowed.deep_view().subrange(0, i as int),
            decreases rn - i,
        {
            let item = borrowed[i].clone();
            assert(item@ == borrowed.deep_view()[i as int]);
            let ghost prev = root_causes.deep_view();
            root_causes.push(item);
            proof {
                assert(root_causes.deep_view() =~= prev.push(item@));
                assert(root_causes.deep_view() =~= borrowed.deep_view().subrange(0, i + 1));
            }
            i += 1;
        }
        proof {
            assert(borrowed.deep_view().subrange(0, rn as int) =~= borrowed.deep_view());
            lemma_roots_prefix_len(graph@, graph@.len() as int);
        }
        let total_rebuilds = graph.len();
        let root_cause_count = rn;
        let cascade_count = total_rebuilds - root_cause_count;

        let nodes = graph.nodes();
        let nn = nodes.len();
        let mut env_vars: usize = 0;
        let mut dependencies: usize = 0;
        let mut target_configs: usize = 0;
        let mut files: usize = 0;
        let mut k: usize = 0;
        while k < nn
            invariant
                nn == nodes.len(),
                nodes.deep_view() == graph@,
                0 <= k <= nn,
                env_vars <= k && env_vars == spec_count_env(graph@, k as int),
                dependencies <= k && dependencies == spec_count_deps(graph@, k as int),
                target_configs <= k && target_configs == spec_count_targets(graph@, k as int),
                files <= k && files == spec_count_files(graph@, k as int),
            decreases nn - k,
        {
            match &nodes[k].reason {
                crate::reason::RebuildReason::EnvVarChanged { .. } => {
                    env_vars += 1;
                },
                crate::reason::RebuildReason::UnitDependencyInfoChanged { .. } => {
                    dependencies += 1;
                },
                crate::reason::RebuildReason::TargetConfigurationChanged => {
                    target_configs += 1;
                },
                crate::reason::RebuildReason::FileChanged { .. } => {
                    files += 1;
                },
                _ => {},
            }
            k += 1;
        }

        RebuildAnalysis {
            total_rebuilds,
            root_cause_count,
            cascade_count,
            root_causes,
            root_cause_chains: graph.root_cause_chains(),
            summary: RebuildSummary { env_vars, dependencies, target_configs, files },
        }
    }
}

/// `s` for a count above one, nothing otherwise.
pub open spec fn spec_plural_s(n: int) -> Seq<char> {
    if n > 1 {
        "s"@
    } else {
        Seq::empty()
    }
}

/// The per-kind breakdown block: empty when nothing was counted, else a
/// heading and one bullet per non-zero kind, correctly pluralized.
pub open spec fn spec_summary_breakdown(env: int, deps: int, configs: int, files: int) -> Seq<
    char,
> {
    if env + deps + configs + files == 0 {
        Seq::empty()
    } else {
        "\nSummary:"@ + (if env > 0 {
            "\n   • "@ + spec_dec_digits(env) + " env variable"@ + spec_plural_s(env)
        } else {
            Seq::<char>::empty()
        }) + (if deps > 0 {
            "\n   • "@ + spec_dec_digits(deps) + " dependenc"@ + (if deps > 1 {
                "ies"@
            } else {
                "y"@
            })
        } else {
            Seq::<char>::empty()
        }) + (if configs > 0 {
            "\n   • "@ + spec_dec_digits(configs) + " config change"@ + spec_plural_s(configs)
        } else {
            Seq::<char>::empty()
        }) + (if files > 0 {
            "\n   • "@ + spec_dec_digits(files) + " file"@ + spec_plural_s(files)
        } else {
            Seq::<char>::empty()
        })
    }
}

/// One bullet line of the breakdown: the count, a label, and the suffix
/// picked by plurality.
fn breakdown_bullet(n: usize, label: &str, many_suffix: &str, one_suffix: &str) -> (r: String)
    ensures
        r@ == "\n   • "@ + spec_dec_digits(n as int) + label@ + (if n > 1 {
            many_suffix@
        } else {
            one_suffix@
        }),
{
    let mut r = String::from_str("\n   • ");
    let count = usize_to_string(n);
    r.append(count.as_str());
    r.append(label);
    if n > 1 {
        r.append(many_suffix);
    } else {
        r.append(one_suffix);
    }
    proof {
        assert(r@ =~= "\n   • "@ + spec_dec_digits(n as int) + label@ + (if n > 1 {
            many_suffix@
        } else {
            one_suffix@
        }));
    }
    r
}

/// The per-kind breakdown block; see [`spec_summary_breakdown`].
pub fn summary_breakdown(env: usize, deps: usize, configs: usize, files: usize) -> (r: String)
    requires
        env + deps + configs + files <= usize::MAX,
    ensures
        r@ == spec_summary_breakdown(env as int, deps as int, configs as int, files as int),
{
    let total = env + deps + configs + files;
    if total == 0 {
        return String::new();
    }
    proof {
        reveal_strlit("");
    }
    let ghost e_part = if env > 0 {
        "\n   • "@ + spec_dec_digits(env as int) + " env variable"@ + spec_plural_s(env as int)
    } else {
        Seq::<char>::empty()
    };
    let ghost d_part = if deps > 0 {
        "\n   • "@ + spec_dec_digits(deps as int) + " dependenc"@ + (if deps > 1 {
            "ies"@
        } else {
            "y"@
        })
    } else {
        Seq::<char>::empty()
    };
    let ghost c_part = if configs > 0 {
        "\n   • "@ + spec_dec_digits(configs as int) + " config change"@ + spec_plural_s(
            configs as int,
        )
    } else {
        Seq::<char>::empty()
    };
    let ghost f_part = if files > 0 {
        "\n   • "@ + spec_dec_digits(files as int) + " file"@ + spec_plural_s(files as int)
    } else {
        Seq::<char>::empty()
    };
    let mut r = String::from_str("\nSummary:");
    if env > 0 {
        let bullet = breakdown_bullet(env, " env variable", "s", "");
        proof {
            assert(bullet@ =~= e_part);
        }
        r.append(bullet.as_str());
    }
    proof {
        assert(r@ =~= "\nSummary:"@ + e_part);
    }
    if deps > 0 {
        let bullet = breakdown_bullet(deps, " dependenc", "ies", "y");
        proof {
            assert(bullet@ =~= d_part);
        }
        r.append(bullet.as_str());
    }
    proof {
        assert(r@ =~= "\nSummary:"@ + e_part + d_part);
    }
    if configs > 0 {
        let bullet = breakdown_bullet(configs, " config change", "s", "");
        proof {
            assert(bullet@ =~= c_part);
        }
        r.append(bullet.as_str());
    }
    proof {
        assert(r@ =~= "\nSummary:"@ + e_part + d_part + c_part);
    }
    if files > 0 {
        let bullet = breakdown_bullet(files, " file", "s", "");
        proof {
            assert(bullet@ =~= f_part);
        }
        r.append(bullet.as_str());
    }
    proof {
        assert(r@ =~= "\nSummary:"@ + e_part + d_part + c_part + f_part);
        assert(spec_summary_breakdown(env as int, deps as int, configs as int, files as int)
            == "\nSummary:"@ + e_part + d_part + c_part + f_part);
    }
    r
}

/// The optimization-tips block: empty when no tip applies, else a heading
/// and the tips that do.
pub open spec fn spec_optimization_tips(env: int, deps: int, total: int) -> Seq<char> {
    if !(env > deps || deps > 0 || total > 10) {
        Seq::empty()
    } else {
        "\nTips:"@ + (if env > deps && env > 0 {
            "\n   • Use direnv or nix-shell for consistent environments"@
        } else {
            Seq::<char>::empty()
        }) + (if deps > 0 {
            "\n   • Try 'cargo build --keep-going' for better CI performance"@
                + "\n   • Consider workspace dependencies to reduce cascades"@
        } else {
            Seq::<char>::empty()
        }) + (if total > 10 {
            "\n   • Many triggers detected - consider incremental changes"@
        } else {
            Seq::<char>::empty()
        })
    }
}

/// The optimization-tips block; see [`spec_optimization_tips`].
pub fn optimization_tips(env: usize, deps: usize, total: usize) -> (r: String)
    ensures
        r@ == spec_optimization_tips(env as int, deps as int, total as int),
{
    if !(env > deps || deps > 0 || total > 10) {
        return String::new();
    }
    let mut r = String::from_str("\nTips:");
    if env > deps && env > 0 {
        r.append("\n   • Use direnv or nix-shell for consistent environments");
    }
    if deps > 0 {
        r.append("\n   • Try 'cargo build --keep-going' for better CI performance");
        r.append("\n   • Consider workspace dependencies to reduce cascades");
    }
    if total > 10 {
        r.append("\n   • Many triggers detected - consider incremental changes");
    }
    proof {
        assert(r@ =~= spec_optimization_tips(env as int, deps as int, total as int));
    }
    r
}

/// The report lines for the first `k` root causes: each on its own line,
/// indented, the unit followed by the reason summary.
pub open spec fn spec_root_lines(roots: Seq<RebuildNodeModel>, k: int) -> Seq<char>
    decreases k,
{
    if k <= 0 {
        Seq::empty()
    } else {
        spec_root_lines(roots, k - 1) + "\n  "@ + spec_display_package(roots[k - 1].package)
            + " "@ + spec_summary(roots[k - 1].reason)
    }
}

/// The human-readable report of one run: a distinct message when nothing
/// triggered, else the root-cause count and one line per root cause.
pub open spec fn spec_analysis_report(nodes: Seq<RebuildNodeModel>) -> Seq<char> {
    let roots = spec_root_causes(nodes);
    if roots.len() == 0 {
        "No rebuild triggers detected."@
    } else {
        "\n"@ + spec_dec_digits(roots.len() as int) + " root cause"@ + (if roots.len() == 1 {
            Seq::<char>::empty()
        } else {
            "s"@
        }) + ":"@ + spec_root_lines(roots, roots.len() as int)
    }
}

/// A run that observed nothing answers every query with nothing: no root
/// causes, no chains, and the distinct no-triggers message.
pub proof fn lemma_empty_run_reports_nothing(nodes: Seq<RebuildNodeModel>)
    requires
        nodes.len() == 0,
    ensures
        spec_root_causes(nodes) == Seq::<RebuildNodeModel>::empty(),
        spec_chains(nodes) == Seq::<RootCauseChainModel>::empty(),
        spec_analysis_report(nodes) == "No rebuild triggers detected."@,
{
}

impl RebuildGraph {
    /// The human-readable report; see [`spec_analysis_report`].
    pub fn analysis_report(&self) -> (r: String)
        ensures
            r@ == spec_analysis_report(self@),
    {
        let roots = self.root_causes();
        let n = roots.len();
        if n == 0 {
            return String::from_str("No rebuild triggers detected.");
        }
        let mut r = String::from_str("\n");
        let count = usize_to_string(n);
        r.append(count.as_str());
        r.append(" root cause");
        if n != 1 {
            r.append("s");
        }
        r.append(":");
        proof {
            assert(r@ =~= "\n"@ + spec_dec_digits(n as int) + " root cause"@ + (if n == 1 {
                Seq::<char>::empty()
            } else {
                "s"@
            }) + ":"@ + spec_root_lines(spec_root_causes(self@), 0));
        }
        let mut i: usize = 0;
        while i < n
            invariant
                n == roots.len(),
                n >= 1,
                roots.deep_view() == spec_root_causes(self@),
                0 <= i <= n,
                r@ == "\n"@ + spec_dec_digits(n as int) + " root cause"@ + (if n == 1 {
                    Seq::<char>::empty()
                } else {
                    "s"@
                }) + ":"@ + spec_root_lines(spec_root_causes(self@), i as int),
            decreases n - i,
        {
            r.append("\n  ");
            let shown = roots[i].package.display_string();
            r.append(shown.as_str());
            r.append(" ");
            let summary = roots[i].reason.summary();
            r.append(summary.as_str());
            proof {
                assert(r@ =~= "\n"@ + spec_dec_digits(n as int) + " root cause"@ + (if n == 1 {
                    Seq::<char>::empty()
                } else {
                    "s"@
                }) + ":"@ + spec_root_lines(spec_root_causes(self@), i + 1));
            }
            i += 1;
        }
        r
    }
}

} // verus!
