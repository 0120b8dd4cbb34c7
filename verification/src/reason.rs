//! The structured vocabulary of rebuild reasons.
//!
//! Each value records one fact about why a compilation unit was judged
//! stale. Exactly one reason is attached per recognized log line.

use vstd::prelude::*;
use vstd::string::StrSliceExecFns;
use vstd::string::StringExecFns;

use crate::text::spec_rfind_char;
use crate::text::rfind_char;

verus! {

/// Why one compilation unit was judged stale.
///
/// `UnitDependencyInfoChanged` is the only variant that represents a
/// cascade: the unit rebuilt because a named dependency rebuilt. Every
/// other variant is a root cause.
#[derive(Debug, PartialEq)]
#[non_exhaustive]
pub enum RebuildReason {
    EnvVarChanged { name: String, old_value: Option<String>, new_value: Option<String> },
    UnitDependencyInfoChanged {
        name: String,
        old_fingerprint: String,
        new_fingerprint: String,
        context: Option<DependencyChangeContext>,
    },
    RustflagsChanged { old: Vec<String>, new: Vec<String> },
    FeaturesChanged { old: String, new: String },
    ProfileConfigurationChanged,
    TargetConfigurationChanged,
    FileChanged { path: String },
    Unknown(String),
}

/// Optional provenance attached to a dependency-change reason.
#[derive(Debug, PartialEq)]
pub struct DependencyChangeContext {
    pub package_id: Option<String>,
    pub target_type: Option<String>,
    pub root_cause: Option<String>,
}

/// Mathematical model of a `RebuildReason`: every string as a `Seq<char>`.
pub enum ReasonModel {
    EnvVarChanged { name: Seq<char>, old_value: Option<Seq<char>>, new_value: Option<Seq<char>> },
    UnitDependencyInfoChanged {
        name: Seq<char>,
        old_fingerprint: Seq<char>,
        new_fingerprint: Seq<char>,
        context: Option<ContextModel>,
    },
    RustflagsChanged { old: Seq<Seq<char>>, new: Seq<Seq<char>> },
    FeaturesChanged { old: Seq<char>, new: Seq<char> },
    ProfileConfigurationChanged,
    TargetConfigurationChanged,
    FileChanged { path: Seq<char> },
    Unknown(Seq<char>),
}

/// Mathematical model of a `DependencyChangeContext`.
pub struct ContextModel {
    pub package_id: Option<Seq<char>>,
    pub target_type: Option<Seq<char>>,
    pub root_cause: Option<Seq<char>>,
}

impl View for DependencyChangeContext {
    type V = ContextModel;

    open spec fn view(&self) -> ContextModel {
        ContextModel {
            package_id: self.package_id.deep_view(),
            target_type: self.target_type.deep_view(),
            root_cause: self.root_cause.deep_view(),
        }
    }
}

impl DeepView for DependencyChangeContext {
    type V = ContextModel;

    open spec fn deep_view(&self) -> ContextModel {
        self.view()
    }
}

impl View for RebuildReason {
    type V = ReasonModel;

    open spec fn view(&self) -> ReasonModel {
        match self {
            RebuildReason::EnvVarChanged { name, old_value, new_value } => {
                ReasonModel::EnvVarChanged {
                    name: name@,
                    old_value: old_value.deep_view(),
                    new_value: new_value.deep_view(),
                }
            },
            RebuildReason::UnitDependencyInfoChanged {
                name,
                old_fingerprint,
                new_fingerprint,
                context,
            } => {
                ReasonModel::UnitDependencyInfoChanged {
                    name: name@,
                    old_fingerprint: old_fingerprint@,
                    new_fingerprint: new_fingerprint@,
                    context: context.deep_view(),
                }
            },
            RebuildReason::RustflagsChanged { old, new } => {
                ReasonModel::RustflagsChanged { old: old.deep_view(), new: new.deep_view() }
            },
            RebuildReason::FeaturesChanged { old, new } => {
                ReasonModel::FeaturesChanged { old: old@, new: new@ }
            },
            RebuildReason::ProfileConfigurationChanged => ReasonModel::ProfileConfigurationChanged,
            RebuildReason::TargetConfigurationChanged => ReasonModel::TargetConfigurationChanged,
            RebuildReason::FileChanged { path } => ReasonModel::FileChanged { path: path@ },
            RebuildReason::Unknown(msg) => ReasonModel::Unknown(msg@),
        }
    }
}

impl DeepView for RebuildReason {
    type V = ReasonModel;

    open spec fn deep_view(&self) -> ReasonModel {
        self.view()
    }
}

impl Clone for DependencyChangeContext {
    /// Cloning keeps the model of the value.
    fn clone(&self) -> (res: Self)
        ensures
            res@ == self@,
    {
        DependencyChangeContext {
            package_id: clone_opt_string(&self.package_id),
            target_type: clone_opt_string(&self.target_type),
            root_cause: clone_opt_string(&self.root_cause),
        }
    }
}

/// Clones an optional string, keeping its model.
fn clone_opt_string(o: &Option<String>) -> (res: Option<String>)
    ensures
        res.deep_view() == o.deep_view(),
{
    match o {
        None => None,
        Some(s) => Some(s.clone()),
    }
}

/// Clones a vector of strings, keeping its model.
fn clone_string_vec(v: &Vec<String>) -> (res: Vec<String>)
    ensures
        res.deep_view() == v.deep_view(),
{
    let res = v.clone();
    proof {
        assert(res.deep_view() =~= v.deep_view());
    }
    res
}

impl Clone for RebuildReason {
    /// Cloning keeps the model of the value.
    fn clone(&self) -> (res: Self)
        ensures
            res@ == self@,
    {
        match self {
            RebuildReason::EnvVarChanged { name, old_value, new_value } => {
                RebuildReason::EnvVarChanged {
                    name: name.clone(),
                    old_value: clone_opt_string(old_value),
                    new_value: clone_opt_string(new_value),
                }
            },
            RebuildReason::UnitDependencyInfoChanged {
                name,
                old_fingerprint,
                new_fingerprint,
                context,
            } => {
                RebuildReason::UnitDependencyInfoChanged {
                    name: name.clone(),
                    old_fingerprint: old_fingerprint.clone(),
                    new_fingerprint: new_fingerprint.clone(),
                    context: match context {
                        None => None,
                        Some(c) => Some(c.clone()),
                    },
                }
            },
            RebuildReason::RustflagsChanged { old, new } => {
                RebuildReason::RustflagsChanged {
                    old: clone_string_vec(old),
                    new: clone_string_vec(new),
                }
            },
            RebuildReason::FeaturesChanged { old, new } => {
                RebuildReason::FeaturesChanged { old: old.clone(), new: new.clone() }
            },
            RebuildReason::ProfileConfigurationChanged => {
                RebuildReason::ProfileConfigurationChanged
            },
            RebuildReason::TargetConfigurationChanged => RebuildReason::TargetConfigurationChanged,
            RebuildReason::FileChanged { path } => {
                RebuildReason::FileChanged { path: path.clone() }
            },
            RebuildReason::Unknown(msg) => RebuildReason::Unknown(msg.clone()),
        }
    }
}

/// A reason is a cascade when it records that a named dependency rebuilt.
pub open spec fn spec_is_cascade(r: ReasonModel) -> bool {
    r is UnitDependencyInfoChanged
}

/// The key under which a reason is deduplicated: its kind, together with
/// the identity the kind is about (variable name, file path or dependency
/// name), never the volatile values such as fingerprints.
pub open spec fn spec_dedup_key(r: ReasonModel) -> Seq<char> {
    match r {
        ReasonModel::EnvVarChanged { name, .. } => "env:"@ + name,
        ReasonModel::FileChanged { path } => "file:"@ + path,
        ReasonModel::UnitDependencyInfoChanged { name, .. } => "dep:"@ + name,
        ReasonModel::TargetConfigurationChanged => "config"@,
        ReasonModel::ProfileConfigurationChanged => "profile"@,
        ReasonModel::RustflagsChanged { .. } => "rustflags"@,
        ReasonModel::FeaturesChanged { .. } => "features"@,
        ReasonModel::Unknown(msg) => "unknown:"@ + msg,
    }
}

/// Deduplication key for a rebuild reason; see [`spec_dedup_key`].
pub fn reason_dedup_key(reason: &RebuildReason) -> (r: String)
    ensures
        r@ == spec_dedup_key(reason@),
{
    match reason {
        RebuildReason::EnvVarChanged { name, .. } => {
            String::from_str("env:").concat(name.as_str())
        },
        RebuildReason::FileChanged { path } => String::from_str("file:").concat(path.as_str()),
        RebuildReason::UnitDependencyInfoChanged { name, .. } => {
            String::from_str("dep:").concat(name.as_str())
        },
        RebuildReason::TargetConfigurationChanged => String::from_str("config"),
        RebuildReason::ProfileConfigurationChanged => String::from_str("profile"),
        RebuildReason::RustflagsChanged { .. } => String::from_str("rustflags"),
        RebuildReason::FeaturesChanged { .. } => String::from_str("features"),
        RebuildReason::Unknown(msg) => String::from_str("unknown:").concat(msg.as_str()),
    }
}

/// The last two `/`-separated components of a path (the whole path when it
/// has fewer than two separators).
pub open spec fn spec_short_path(p: Seq<char>) -> Seq<char> {
    match spec_rfind_char(p, '/', p.len() as int) {
        None => p,
        Some(l1) => match spec_rfind_char(p, '/', l1) {
            None => p,
            Some(l2) => p.subrange(l2 + 1, p.len() as int),
        },
    }
}

/// The one-line rendering of a reason, used by the human-readable report
/// and by tests; identity values are included, volatile ones abbreviated.
pub open spec fn spec_summary(r: ReasonModel) -> Seq<char> {
    match r {
        ReasonModel::EnvVarChanged { name, old_value, new_value } => {
            "env:"@ + name + " ("@ + spec_env_change(old_value, new_value) + ")"@
        },
        ReasonModel::UnitDependencyInfoChanged { name, .. } => "dep:"@ + name,
        ReasonModel::RustflagsChanged { .. } => "rustflags changed"@,
        ReasonModel::FeaturesChanged { old, new } => "features: "@ + old + " -> "@ + new,
        ReasonModel::ProfileConfigurationChanged => "profile changed"@,
        ReasonModel::TargetConfigurationChanged => "target config changed"@,
        ReasonModel::FileChanged { path } => "file:"@ + spec_short_path(path),
        ReasonModel::Unknown(msg) => "unknown:"@ + msg,
    }
}

/// How an old/new pair of optional values is rendered in a summary.
pub open spec fn spec_env_change(old: Option<Seq<char>>, new: Option<Seq<char>>) -> Seq<char> {
    match (old, new) {
        (Some(o), Some(n)) => "'"@ + o + "' -> '"@ + n + "'"@,
        (Some(o), None) => "'"@ + o + "' -> unset"@,
        (None, Some(n)) => "unset -> '"@ + n + "'"@,
        (None, None) => "changed"@,
    }
}

impl RebuildReason {
    /// One-line rendering of the reason; see [`spec_summary`].
    pub fn summary(&self) -> (r: String)
        ensures
            r@ == spec_summary(self@),
    {
        match self {
            RebuildReason::EnvVarChanged { name, old_value, new_value } => {
                let change = env_change_text(old_value, new_value);
                let mut r = String::from_str("env:");
                r.append(name.as_str());
                r.append(" (");
                r.append(change.as_str());
                r.append(")");
                r
            },
            RebuildReason::UnitDependencyInfoChanged { name, .. } => {
                String::from_str("dep:").concat(name.as_str())
            },
            RebuildReason::RustflagsChanged { .. } => String::from_str("rustflags changed"),
            RebuildReason::FeaturesChanged { old, new } => {
                let mut r = String::from_str("features: ");
                r.append(old.as_str());
                r.append(" -> ");
                r.append(new.as_str());
                r
            },
            RebuildReason::ProfileConfigurationChanged => String::from_str("profile changed"),
            RebuildReason::TargetConfigurationChanged => {
                String::from_str("target config changed")
            },
            RebuildReason::FileChanged { path } => {
                String::from_str("file:").concat(short_path(path.as_str()).as_str())
            },
            RebuildReason::Unknown(msg) => String::from_str("unknown:").concat(msg.as_str()),
        }
    }
}

/// Renders an old/new pair of optional values; see [`spec_env_change`].
fn env_change_text(old: &Option<String>, new: &Option<String>) -> (r: String)
    ensures
        r@ == spec_env_change(old.deep_view(), new.deep_view()),
{
    match (old, new) {
        (Some(o), Some(n)) => {
            let mut r = String::from_str("'");
            r.append(o.as_str());
            r.append("' -> '");
            r.append(n.as_str());
            r.append("'");
            r
        },
        (Some(o), None) => {
            let mut r = String::from_str("'");
            r.append(o.as_str());
            r.append("' -> unset");
            r
        },
        (None, Some(n)) => {
            let mut r = String::from_str("unset -> '");
            r.append(n.as_str());
            r.append("'");
            r
        },
        (None, None) => String::from_str("changed"),
    }
}

/// The last two `/`-separated components of a path; see [`spec_short_path`].
fn short_path(p: &str) -> (r: String)
    ensures
        r@ == spec_short_path(p@),
{
    let n = p.unicode_len();
    match rfind_char(p, '/', n) {
        None => p.to_owned(),
        Some(l1) => match rfind_char(p, '/', l1) {
            None => p.to_owned(),
            Some(l2) => p.substring_char(l2 + 1, n).to_owned(),
        },
    }
}

} // verus!
