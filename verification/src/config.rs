//! The analysis run's configuration and the per-line decision of the log
//! scan.
//!
//! The driver that spawns the build and streams its diagnostic output owns
//! all I/O; what it decides per line — which lines are candidate rebuild
//! triggers, and what each one adds to the graph — lives here.

use vstd::prelude::*;
use vstd::string::StringExecFns;

use crate::graph::RebuildGraph;
use crate::graph::RebuildNode;
use crate::graph::RebuildNodeModel;
use crate::graph::spec_add_node;
use crate::graph::spec_distinct_keys;
use crate::parser::parse_rebuild_entry;
use crate::parser::spec_parse_entry;
use crate::text::contains_sub;
use crate::text::contains_str;
use crate::text::spec_join_space;
use crate::text::join_space;

verus! {

/// One analysis run's settings: where the project lives, what cargo
/// command to observe, how to report, and what to pass through to cargo.
#[derive(Debug)]
pub struct Config {
    pub path: String,
    pub verbose: bool,
    pub json: bool,
    pub command: String,
    pub cargo_args: Vec<String>,
}

/// Mathematical model of a `Config`.
pub struct ConfigModel {
    pub path: Seq<char>,
    pub verbose: bool,
    pub json: bool,
    pub command: Seq<char>,
    pub cargo_args: Seq<Seq<char>>,
}

impl View for Config {
    type V = ConfigModel;

    open spec fn view(&self) -> ConfigModel {
        ConfigModel {
            path: self.path@,
            verbose: self.verbose,
            json: self.json,
            command: self.command@,
            cargo_args: self.cargo_args.deep_view(),
        }
    }
}

/// The full cargo command line: the command, then the pass-through
/// arguments joined by spaces.
pub open spec fn spec_cargo_command(c: ConfigModel) -> Seq<char> {
    if c.cargo_args.len() == 0 {
        c.command
    } else {
        c.command + " "@ + spec_join_space(c.cargo_args, c.cargo_args.len() as int)
    }
}

impl Config {
    /// The command handed to cargo; see [`spec_cargo_command`].
    pub fn cargo_command(&self) -> (r: String)
        ensures
            r@ == spec_cargo_command(self@),
    {
        if self.cargo_args.len() == 0 {
            self.command.clone()
        } else {
            let mut r = self.command.clone();
            r.append(" ");
            let joined = join_space(&self.cargo_args);
            r.append(joined.as_str());
            proof {
                assert(r@ =~= spec_cargo_command(self@));
            }
            r
        }
    }
}

/// A line is a candidate rebuild trigger when it comes from the
/// fingerprint subsystem and carries a dirty or stale verdict.
pub open spec fn spec_line_is_trigger(line: Seq<char>) -> bool {
    contains_sub(line, "fingerprint"@) && (contains_sub(line, "dirty:"@) || contains_sub(
        line,
        "stale:"@,
    ))
}

/// What one log line adds to the store: nothing unless the line is a
/// candidate and parses, else its node, deduplicated.
pub open spec fn spec_process_line(
    nodes: Seq<RebuildNodeModel>,
    line: Seq<char>,
) -> Seq<RebuildNodeModel> {
    if spec_line_is_trigger(line) {
        match spec_parse_entry(line) {
            None => nodes,
            Some(e) => spec_add_node(
                nodes,
                RebuildNodeModel { package: e.package, reason: e.reason },
            ),
        }
    } else {
        nodes
    }
}

/// Feeds one log line into the graph; the returned flag says whether the
/// line was a candidate rebuild trigger.
pub fn process_log_line(graph: &mut RebuildGraph, line: &str) -> (r: bool)
    requires
        spec_distinct_keys(old(graph)@),
    ensures
        spec_distinct_keys(final(graph)@),
        final(graph)@ == spec_process_line(old(graph)@, line@),
        r == spec_line_is_trigger(line@),
{
    if contains_str(line, "fingerprint") && (contains_str(line, "dirty:") || contains_str(
        line,
        "stale:",
    )) {
        if let Some(entry) = parse_rebuild_entry(line) {
            graph.add_node(RebuildNode::new(entry.package, entry.reason));
        }
        true
    } else {
        false
    }
}

} // verus!
