//! Multi-line human-readable explanations of rebuild reasons, with
//! actionable suggestions.
//!
//! Every rendering is specified exactly: the model of the returned string
//! is the concatenation the matching spec function describes.

use vstd::prelude::*;
use vstd::string::StringExecFns;

use crate::reason::DependencyChangeContext;
use crate::reason::RebuildReason;
use crate::reason::ReasonModel;
use crate::reason::ContextModel;
use crate::text::contains_sub;
use crate::text::contains_str;
use crate::text::spec_trim;
use crate::text::spec_join_space;
use crate::text::join_space;
use crate::text::spec_starts_with;
use crate::text::spec_ends_with;
use crate::text::str_eq;
use crate::text::str_starts_with;
use crate::text::str_ends_with;
use crate::text::trim_str;

verus! {

/// An explanation under construction: an icon, a title, a detail line,
/// optional suggestions and optional context lines.
struct ExplanationParts {
    icon: &'static str,
    title: &'static str,
    details: String,
    suggestions: Vec<String>,
    context_lines: Vec<String>,
}

/// Mathematical model of `ExplanationParts`.
pub struct ExplanationPartsModel {
    pub icon: Seq<char>,
    pub title: Seq<char>,
    pub details: Seq<char>,
    pub suggestions: Seq<Seq<char>>,
    pub context_lines: Seq<Seq<char>>,
}

impl View for ExplanationParts {
    type V = ExplanationPartsModel;

    closed spec fn view(&self) -> ExplanationPartsModel {
        ExplanationPartsModel {
            icon: self.icon@,
            title: self.title@,
            details: self.details@,
            suggestions: self.suggestions.deep_view(),
            context_lines: self.context_lines.deep_view(),
        }
    }
}

/// The suggestion bullet lines for the first `k` suggestions, each on its
/// own line.
pub open spec fn spec_bullets(suggestions: Seq<Seq<char>>, k: int) -> Seq<char>
    decreases k,
{
    if k <= 0 {
        Seq::empty()
    } else {
        spec_bullets(suggestions, k - 1) + "\n      • "@ + suggestions[k - 1]
    }
}

/// The first `k` context lines, each on its own line.
pub open spec fn spec_context_block(lines: Seq<Seq<char>>, k: int) -> Seq<char>
    decreases k,
{
    if k <= 0 {
        Seq::empty()
    } else {
        spec_context_block(lines, k - 1) + "\n"@ + lines[k - 1]
    }
}

/// The rendered explanation: a header line, a suggestion block when any
/// suggestion was added, and the context lines.
pub open spec fn spec_build(p: ExplanationPartsModel) -> Seq<char> {
    p.icon + " "@ + p.title + ": "@ + p.details + (if p.suggestions.len() == 0 {
        Seq::<char>::empty()
    } else {
        "\n   💡 Suggestions:"@ + spec_bullets(p.suggestions, p.suggestions.len() as int)
    }) + spec_context_block(p.context_lines, p.context_lines.len() as int)
}

impl ExplanationParts {
    fn new(icon: &'static str, title: &'static str) -> (r: Self)
        ensures
            r@.icon == icon@,
            r@.title == title@,
            r@.details == Seq::<char>::empty(),
            r@.suggestions == Seq::<Seq<char>>::empty(),
            r@.context_lines == Seq::<Seq<char>>::empty(),
    {
        let r = ExplanationParts {
            icon,
            title,
            details: String::new(),
            suggestions: Vec::new(),
            context_lines: Vec::new(),
        };
        proof {
            assert(r@.suggestions =~= Seq::<Seq<char>>::empty());
            assert(r@.context_lines =~= Seq::<Seq<char>>::empty());
        }
        r
    }

    fn with_details(self, details: String) -> (r: Self)
        ensures
            r@ == (ExplanationPartsModel { details: details@, ..self@ }),
    {
        ExplanationParts { details, ..self }
    }

    fn with_suggestion(self, suggestion: &str) -> (r: Self)
        ensures
            r@ == (ExplanationPartsModel {
                suggestions: self@.suggestions.push(suggestion@),
                ..self@
            }),
    {
        let mut s = self;
        s.suggestions.push(String::from_str(suggestion));
        proof {
            assert(s@.suggestions =~= self@.suggestions.push(suggestion@));
        }
        s
    }

    fn with_suggestions(self, suggestions: Vec<&str>) -> (r: Self)
        ensures
            r@ == (ExplanationPartsModel {
                suggestions: self@.suggestions + suggestions.deep_view(),
                ..self@
            }),
    {
        let mut s = self;
        let n = suggestions.len();
        let mut i: usize = 0;
        while i < n
            invariant
                n == suggestions.len(),
                0 <= i <= n,
                s@.icon == self@.icon,
                s@.title == self@.title,
                s@.details == self@.details,
                s@.context_lines == self@.context_lines,
                s@.suggestions =~= self@.suggestions + suggestions.deep_view().subrange(
                    0,
                    i as int,
                ),
            decreases n - i,
        {
            let item = String::from_str(suggestions[i]);
            assert(item@ == suggestions.deep_view()[i as int]);
            let ghost before = s@.suggestions;
            s.suggestions.push(item);
            proof {
                assert(s@.suggestions =~= before.push(item@));
                assert(s@.suggestions =~= self@.suggestions + suggestions.deep_view().subrange(
                    0,
                    i + 1,
                ));
            }
            i += 1;
        }
        proof {
            assert(suggestions.deep_view().subrange(0, n as int) =~= suggestions.deep_view());
            assert(s@.suggestions =~= self@.suggestions + suggestions.deep_view());
        }
        s
    }

    fn with_context(self, label: &str, value: &str) -> (r: Self)
        ensures
            r@ == (ExplanationPartsModel {
                context_lines: self@.context_lines.push("   "@ + label@ + ": "@ + value@),
                ..self@
            }),
    {
        let mut line = String::from_str("   ");
        line.append(label);
        line.append(": ");
        line.append(value);
        let mut s = self;
        s.context_lines.push(line);
        proof {
            assert(s@.context_lines =~= self@.context_lines.push(
                "   "@ + label@ + ": "@ + value@,
            ));
        }
        s
    }

    fn build(self) -> (r: String)
        ensures
            r@ == spec_build(self@),
    {
        let mut r = String::from_str(self.icon);
        r.append(" ");
        r.append(self.title);
        r.append(": ");
        r.append(self.details.as_str());
        let sn = self.suggestions.len();
        if sn > 0 {
            r.append("\n   💡 Suggestions:");
            let mut i: usize = 0;
            while i < sn
                invariant
                    sn == self.suggestions.len(),
                    0 <= i <= sn,
                    r@ == self@.icon + " "@ + self@.title + ": "@ + self@.details
                        + "\n   💡 Suggestions:"@ + spec_bullets(self@.suggestions, i as int),
                decreases sn - i,
            {
                r.append("\n      • ");
                r.append(self.suggestions[i].as_str());
                i += 1;
            }
        }
        let cn = self.context_lines.len();
        let mut j: usize = 0;
        while j < cn
            invariant
                cn == self.context_lines.len(),
                0 <= j <= cn,
                r@ == self@.icon + " "@ + self@.title + ": "@ + self@.details + (
                if self@.suggestions.len() == 0 {
                    Seq::<char>::empty()
                } else {
                    "\n   💡 Suggestions:"@ + spec_bullets(
                        self@.suggestions,
                        self@.suggestions.len() as int,
                    )
                }) + spec_context_block(self@.context_lines, j as int),
            decreases cn - j,
        {
            r.append("\n");
            r.append(self.context_lines[j].as_str());
            j += 1;
        }
        r
    }
}

/// How an old/new pair of optional values is described in an explanation.
pub open spec fn spec_change_desc(old: Option<Seq<char>>, new: Option<Seq<char>>) -> Seq<char> {
    match (old, new) {
        (Some(o), Some(n)) => "changed from '"@ + o + "' to '"@ + n + "'"@,
        (Some(o), None) => "was unset (was '"@ + o + "')"@,
        (None, Some(n)) => "was set to '"@ + n + "'"@,
        (None, None) => "changed (both old and new values are None)"@,
    }
}

/// The suggestions offered for a changed environment variable, by name.
pub open spec fn spec_env_suggestions(name: Seq<char>) -> Seq<Seq<char>> {
    if name == "CC"@ || name == "CXX"@ {
        seq![
            "Ensure consistent compiler environment across builds"@,
            "This usually happens when switching between development environments"@,
            "Consider using direnv or similar tools to manage environment"@,
        ]
    } else if name == "CARGO_TARGET_DIR"@ {
        seq![
            "Use consistent CARGO_TARGET_DIR or avoid setting it"@,
            "Consider using a fixed location for target directory"@,
        ]
    } else if name == "RUSTFLAGS"@ || name == "RUSTC_FLAGS"@ {
        seq![
            "Ensure consistent build flags across builds"@,
            "Consider using cargo profiles instead of environment variables"@,
        ]
    } else if name == "PATH"@ {
        seq![
            "Ensure consistent PATH across builds"@,
            "Check if new tools were added/removed from PATH"@,
        ]
    } else if spec_starts_with(name, "CARGO_"@) {
        seq![
            "Check your cargo configuration"@,
            "Ensure consistent cargo environment variables"@,
        ]
    } else {
        seq!["Ensure consistent environment between builds"@]
    }
}

/// The explanation of an environment-variable change.
pub open spec fn spec_explain_env_var(
    name: Seq<char>,
    old: Option<Seq<char>>,
    new: Option<Seq<char>>,
) -> Seq<char> {
    spec_build(
        ExplanationPartsModel {
            icon: "🔧"@,
            title: "ENVIRONMENT VARIABLE"@,
            details: "Environment variable '"@ + name + "' "@ + spec_change_desc(old, new),
            suggestions: spec_env_suggestions(name),
            context_lines: Seq::empty(),
        },
    )
}

/// One context line: three spaces, a label, a colon and the value.
pub open spec fn spec_ctx_line(label: Seq<char>, value: Seq<char>) -> Seq<char> {
    "   "@ + label + ": "@ + value
}

/// The context lines rendered for a dependency change, in a fixed order.
pub open spec fn spec_dep_context_lines(c: Option<ContextModel>) -> Seq<Seq<char>> {
    match c {
        None => Seq::empty(),
        Some(cm) => {
            let l0 = Seq::<Seq<char>>::empty();
            let l1 = match cm.root_cause {
                Some(rc) => l0.push(spec_ctx_line("🔍 Root cause"@, rc)),
                None => l0,
            };
            let l2 = match cm.package_id {
                Some(p) => l1.push(spec_ctx_line("📋 Package"@, p)),
                None => l1,
            };
            match cm.target_type {
                Some(t) => l2.push(spec_ctx_line("🎯 Target"@, t)),
                None => l2,
            }
        },
    }
}

/// The suggestions offered for a rebuilt dependency, by what its name
/// tells about it.
pub open spec fn spec_dep_suggestions(name: Seq<char>) -> Seq<Seq<char>> {
    if contains_sub(name, "build_script"@) {
        seq![
            "Build script dependencies were updated"@,
            "Environment variables affecting the build script changed"@,
            "System dependencies (like C libraries) were updated"@,
        ]
    } else if spec_ends_with(name, "-sys"@) {
        seq![
            "The underlying C library was updated"@,
            "Library detection logic found different versions"@,
            "pkg-config or cmake output changed"@,
        ]
    } else {
        seq![
            "Dependency source code changed"@,
            "Dependency's own dependencies changed"@,
            "Build flags or features changed for the dependency"@,
        ]
    }
}

/// The explanation of a dependency change.
pub open spec fn spec_explain_dependency(name: Seq<char>, c: Option<ContextModel>) -> Seq<char> {
    spec_build(
        ExplanationPartsModel {
            icon: "📦"@,
            title: "DEPENDENCY"@,
            details: "Dependency '"@ + name + "' was rebuilt"@,
            suggestions: spec_dep_suggestions(name),
            context_lines: spec_dep_context_lines(c),
        },
    )
}

/// A flag list rendered for display: `(none)` when empty, else the flags
/// joined by spaces.
pub open spec fn spec_flags_text(v: Seq<Seq<char>>) -> Seq<char> {
    if v.len() == 0 {
        "(none)"@
    } else {
        spec_join_space(v, v.len() as int)
    }
}

/// The explanation of a RUSTFLAGS change.
pub open spec fn spec_explain_rustflags(old: Seq<Seq<char>>, new: Seq<Seq<char>>) -> Seq<char> {
    spec_build(
        ExplanationPartsModel {
            icon: "🚩"@,
            title: "RUSTFLAGS CHANGED"@,
            details: spec_flags_text(old) + " → "@ + spec_flags_text(new),
            suggestions: spec_rustflags_suggestions(),
            context_lines: Seq::empty(),
        },
    )
}

/// The explanation of a feature-selection change.
pub open spec fn spec_explain_features(old: Seq<char>, new: Seq<char>) -> Seq<char> {
    spec_build(
        ExplanationPartsModel {
            icon: "🔧"@,
            title: "FEATURES CHANGED"@,
            details: "'"@ + old + "' → '"@ + new + "'"@,
            suggestions: spec_features_suggestions(),
            context_lines: Seq::empty(),
        },
    )
}

/// The explanation of a profile-configuration change.
pub open spec fn spec_explain_profile() -> Seq<char> {
    spec_build(
        ExplanationPartsModel {
            icon: "📊"@,
            title: "PROFILE CONFIGURATION"@,
            details: "Build profile settings changed"@,
            suggestions: spec_profile_suggestions(),
            context_lines: Seq::empty(),
        },
    )
}

/// The explanation of a target-configuration change.
pub open spec fn spec_explain_target() -> Seq<char> {
    spec_build(
        ExplanationPartsModel {
            icon: "⚙️ "@,
            title: "TARGET CONFIGURATION"@,
            details: "Build target settings changed"@,
            suggestions: spec_target_suggestions(),
            context_lines: Seq::empty(),
        },
    )
}

/// The suggestion offered for a changed file, by what kind of file it is.
pub open spec fn spec_file_suggestion(path: Seq<char>) -> Seq<char> {
    if contains_sub(path, "Cargo.toml"@) || contains_sub(path, "Cargo.lock"@) {
        "Project configuration changed. This triggers rebuilds of affected crates."@
    } else if contains_sub(path, ".rs"@) {
        "Source file was modified. This is expected when code changes."@
    } else if contains_sub(path, "build.rs"@) {
        "Build script changed. This often triggers rebuilds of multiple crates."@
    } else {
        "A file that affects the build process was modified."@
    }
}

/// The explanation of a file change.
pub open spec fn spec_explain_file(path: Seq<char>) -> Seq<char> {
    spec_build(
        ExplanationPartsModel {
            icon: "📝"@,
            title: "FILE CHANGED"@,
            details: path,
            suggestions: seq![spec_file_suggestion(path)],
            context_lines: Seq::empty(),
        },
    )
}

/// The explanation of an unrecognized reason kept as raw text.
pub open spec fn spec_explain_unknown(msg: Seq<char>) -> Seq<char> {
    spec_build(
        ExplanationPartsModel {
            icon: "❓"@,
            title: "UNKNOWN REBUILD REASON"@,
            details: spec_trim(msg),
            suggestions: seq![
                "This might be a new type of rebuild trigger. Consider reporting this for analysis."@,
            ],
            context_lines: Seq::empty(),
        },
    )
}

/// A flag list rendered for display; see [`spec_flags_text`].
fn flags_text(v: &Vec<String>) -> (r: String)
    ensures
        r@ == spec_flags_text(v.deep_view()),
{
    if v.len() == 0 {
        return String::from_str("(none)");
    }
    join_space(v)
}

impl RebuildReason {
    /// The multi-line explanation of this reason; see [`spec_explanation`].
    pub fn explanation(&self) -> (r: String)
        ensures
            r@ == spec_explanation(self@),
    {
        match self {
            RebuildReason::EnvVarChanged { name, old_value, new_value } => {
                RebuildReason::explain_env_var_change(name.as_str(), old_value, new_value)
            },
            RebuildReason::UnitDependencyInfoChanged { name, context, .. } => {
                RebuildReason::explain_dependency_change(name.as_str(), context)
            },
            RebuildReason::RustflagsChanged { old, new } => {
                RebuildReason::explain_rustflags_change(old, new)
            },
            RebuildReason::FeaturesChanged { old, new } => {
                RebuildReason::explain_features_change(old.as_str(), new.as_str())
            },
            RebuildReason::ProfileConfigurationChanged => {
                RebuildReason::explain_profile_configuration_change()
            },
            RebuildReason::TargetConfigurationChanged => {
                RebuildReason::explain_target_configuration_change()
            },
            RebuildReason::FileChanged { path } => {
                RebuildReason::explain_file_change(path.as_str())
            },
            RebuildReason::Unknown(msg) => RebuildReason::explain_unknown_reason(msg.as_str()),
        }
    }

    fn explain_env_var_change(name: &str, old_value: &Option<String>, new_value: &Option<String>) -> (r:
        String)
        ensures
            r@ == spec_explain_env_var(name@, old_value.deep_view(), new_value.deep_view()),
    {
        let mut details = String::from_str("Environment variable '");
        details.append(name);
        details.append("' ");
        match (old_value, new_value) {
            (Some(o), Some(n)) => {
                details.append("changed from '");
                details.append(o.as_str());
                details.append("' to '");
                details.append(n.as_str());
                details.append("'");
            },
            (Some(o), None) => {
                details.append("was unset (was '");
                details.append(o.as_str());
                details.append("')");
            },
            (None, Some(n)) => {
                details.append("was set to '");
                details.append(n.as_str());
                details.append("'");
            },
            (None, None) => {
                details.append("changed (both old and new values are None)");
            },
        }
        proof {
            assert(details@ =~= "Environment variable '"@ + name@ + "' "@ + spec_change_desc(
                old_value.deep_view(),
                new_value.deep_view(),
            ));
        }
        let parts = ExplanationParts::new("🔧", "ENVIRONMENT VARIABLE").with_details(details);
        let parts = if str_eq(name, "CC") || str_eq(name, "CXX") {
            parts.with_suggestion("Ensure consistent compiler environment across builds")
                .with_suggestion(
                "This usually happens when switching between development environments",
            ).with_suggestion("Consider using direnv or similar tools to manage environment")
        } else if str_eq(name, "CARGO_TARGET_DIR") {
            parts.with_suggestion("Use consistent CARGO_TARGET_DIR or avoid setting it")
                .with_suggestion("Consider using a fixed location for target directory")
        } else if str_eq(name, "RUSTFLAGS") || str_eq(name, "RUSTC_FLAGS") {
            parts.with_suggestion("Ensure consistent build flags across builds").with_suggestion(
                "Consider using cargo profiles instead of environment variables",
            )
        } else if str_eq(name, "PATH") {
            parts.with_suggestion("Ensure consistent PATH across builds").with_suggestion(
                "Check if new tools were added/removed from PATH",
            )
        } else if str_starts_with(name, "CARGO_") {
            parts.with_suggestion("Check your cargo configuration").with_suggestion(
                "Ensure consistent cargo environment variables",
            )
        } else {
            parts.with_suggestion("Ensure consistent environment between builds")
        };
        proof {
            assert(parts@.suggestions =~= spec_env_suggestions(name@));
        }
        parts.build()
    }

    fn explain_dependency_change(name: &str, context: &Option<DependencyChangeContext>) -> (r:
        String)
        ensures
            r@ == spec_explain_dependency(name@, context.deep_view()),
    {
        let mut details = String::from_str("Dependency '");
        details.append(name);
        details.append("' was rebuilt");
        proof {
            assert(details@ =~= "Dependency '"@ + name@ + "' was rebuilt"@);
        }
        let parts = ExplanationParts::new("📦", "DEPENDENCY").with_details(details);
        let parts = if contains_str(name, "build_script") {
            parts.with_suggestion("Build script dependencies were updated").with_suggestion(
                "Environment variables affecting the build script changed",
            ).with_suggestion("System dependencies (like C libraries) were updated")
        } else if str_ends_with(name, "-sys") {
            parts.with_suggestion("The underlying C library was updated").with_suggestion(
                "Library detection logic found different versions",
            ).with_suggestion("pkg-config or cmake output changed")
        } else {
            parts.with_suggestion("Dependency source code changed").with_suggestion(
                "Dependency's own dependencies changed",
            ).with_suggestion("Build flags or features changed for the dependency")
        };
        proof {
            assert(parts@.suggestions =~= spec_dep_suggestions(name@));
        }
        let mut parts = parts;
        if let Some(ctx) = context {
            if let Some(root_cause) = &ctx.root_cause {
                parts = parts.with_context("🔍 Root cause", root_cause.as_str());
            }
            if let Some(package_id) = &ctx.package_id {
                parts = parts.with_context("📋 Package", package_id.as_str());
            }
            if let Some(target_type) = &ctx.target_type {
                parts = parts.with_context("🎯 Target", target_type.as_str());
            }
        }
        proof {
            assert(parts@.context_lines =~= spec_dep_context_lines(context.deep_view()));
        }
        parts.build()
    }

    fn explain_rustflags_change(old: &Vec<String>, new: &Vec<String>) -> (r: String)
        ensures
            r@ == spec_explain_rustflags(old.deep_view(), new.deep_view()),
    {
        let mut details = flags_text(old);
        details.append(" → ");
        details.append(flags_text(new).as_str());
        proof {
            assert(details@ =~= spec_flags_text(old.deep_view()) + " → "@ + spec_flags_text(
                new.deep_view(),
            ));
        }
        let mut suggestions: Vec<&str> = Vec::new();
        suggestions.push("Different development environments (nix-shell, different toolchains)");
        suggestions.push("Changed compiler optimization settings");
        suggestions.push("Added/removed debugging flags");
        suggestions.push("Modified target-specific compilation flags");
        suggestions.push("Use consistent RUSTFLAGS across builds or use cargo profiles");
        let parts = ExplanationParts::new("🚩", "RUSTFLAGS CHANGED").with_details(details)
            .with_suggestions(suggestions);
        proof {
            assert(parts@.suggestions =~= spec_rustflags_suggestions());
        }
        parts.build()
    }

    fn explain_features_change(old: &str, new: &str) -> (r: String)
        ensures
            r@ == spec_explain_features(old@, new@),
    {
        let mut details = String::from_str("'");
        details.append(old);
        details.append("' → '");
        details.append(new);
        details.append("'");
        proof {
            assert(details@ =~= "'"@ + old@ + "' → '"@ + new@ + "'"@);
        }
        let parts = ExplanationParts::new("🔧", "FEATURES CHANGED").with_details(details)
            .with_suggestion("Different cargo commands (e.g., --features vs --all-features)")
            .with_suggestion(
            "Workspace vs individual package builds with different default features",
        ).with_suggestion("Changed feature selection in Cargo.toml dependencies").with_suggestion(
            "Use consistent feature flags or expect rebuilds when changing features",
        );
        proof {
            assert(parts@.suggestions =~= spec_features_suggestions());
        }
        parts.build()
    }

    fn explain_profile_configuration_change() -> (r: String)
        ensures
            r@ == spec_explain_profile(),
    {
        let parts = ExplanationParts::new("📊", "PROFILE CONFIGURATION").with_details(
            String::from_str("Build profile settings changed"),
        ).with_suggestion("Changed [profile.dev] or [profile.release] settings in Cargo.toml")
            .with_suggestion("Modified optimization levels, debug info, or LTO settings")
            .with_suggestion("Updated codegen-units or incremental compilation settings")
            .with_suggestion(
            "Keep profile configurations consistent or expect rebuilds when changing them",
        );
        proof {
            assert(parts@.suggestions =~= spec_profile_suggestions());
        }
        parts.build()
    }

    fn explain_target_configuration_change() -> (r: String)
        ensures
            r@ == spec_explain_target(),
    {
        let parts = ExplanationParts::new("⚙️ ", "TARGET CONFIGURATION").with_details(
            String::from_str("Build target settings changed"),
        ).with_suggestion("Switched between debug/release mode").with_suggestion(
            "Changed optimization level or debug settings",
        ).with_suggestion("Modified target architecture or features").with_suggestion(
            "Updated Cargo.toml [profile] settings",
        ).with_suggestion("Use consistent build profiles or expect rebuilds when switching");
        proof {
            assert(parts@.suggestions =~= spec_target_suggestions());
        }
        parts.build()
    }

    fn explain_file_change(path: &str) -> (r: String)
        ensures
            r@ == spec_explain_file(path@),
    {
        let suggestion: &str = if contains_str(path, "Cargo.toml") || contains_str(
            path,
            "Cargo.lock",
        ) {
            "Project configuration changed. This triggers rebuilds of affected crates."
        } else if contains_str(path, ".rs") {
            "Source file was modified. This is expected when code changes."
        } else if contains_str(path, "build.rs") {
            "Build script changed. This often triggers rebuilds of multiple crates."
        } else {
            "A file that affects the build process was modified."
        };
        let parts = ExplanationParts::new("📝", "FILE CHANGED").with_details(path.to_owned())
            .with_suggestion(suggestion);
        proof {
            assert(parts@.suggestions =~= seq![spec_file_suggestion(path@)]);
        }
        parts.build()
    }

    fn explain_unknown_reason(msg: &str) -> (r: String)
        ensures
            r@ == spec_explain_unknown(msg@),
    {
        let parts = ExplanationParts::new("❓", "UNKNOWN REBUILD REASON").with_details(
            trim_str(msg),
        ).with_suggestion(
            "This might be a new type of rebuild trigger. Consider reporting this for analysis.",
        );
        proof {
            assert(parts@.suggestions =~= seq![
                "This might be a new type of rebuild trigger. Consider reporting this for analysis."@,
            ]);
        }
        parts.build()
    }
}

/// The suggestions attached to every rustflags explanation.
pub open spec fn spec_rustflags_suggestions() -> Seq<Seq<char>> {
    seq![
        "Different development environments (nix-shell, different toolchains)"@,
        "Changed compiler optimization settings"@,
        "Added/removed debugging flags"@,
        "Modified target-specific compilation flags"@,
        "Use consistent RUSTFLAGS across builds or use cargo profiles"@,
    ]
}

/// The suggestions attached to every features explanation.
pub open spec fn spec_features_suggestions() -> Seq<Seq<char>> {
    seq![
        "Different cargo commands (e.g., --features vs --all-features)"@,
        "Workspace vs individual package builds with different default features"@,
        "Changed feature selection in Cargo.toml dependencies"@,
        "Use consistent feature flags or expect rebuilds when changing features"@,
    ]
}

/// The suggestions attached to every profile explanation.
pub open spec fn spec_profile_suggestions() -> Seq<Seq<char>> {
    seq![
        "Changed [profile.dev] or [profile.release] settings in Cargo.toml"@,
        "Modified optimization levels, debug info, or LTO settings"@,
        "Updated codegen-units or incremental compilation settings"@,
        "Keep profile configurations consistent or expect rebuilds when changing them"@,
    ]
}

/// The suggestions attached to every target-configuration explanation.
pub open spec fn spec_target_suggestions() -> Seq<Seq<char>> {
    seq![
        "Switched between debug/release mode"@,
        "Changed optimization level or debug settings"@,
        "Modified target architecture or features"@,
        "Updated Cargo.toml [profile] settings"@,
        "Use consistent build profiles or expect rebuilds when switching"@,
    ]
}

/// The full explanation of a reason, by its kind.
pub open spec fn spec_explanation(r: ReasonModel) -> Seq<char> {
    match r {
        ReasonModel::EnvVarChanged { name, old_value, new_value } => spec_explain_env_var(
            name,
            old_value,
            new_value,
        ),
        ReasonModel::UnitDependencyInfoChanged { name, context, .. } => spec_explain_dependency(
            name,
            context,
        ),
        ReasonModel::RustflagsChanged { old, new } => spec_explain_rustflags(old, new),
        ReasonModel::FeaturesChanged { old, new } => spec_explain_features(old, new),
        ReasonModel::ProfileConfigurationChanged => spec_explain_profile(),
        ReasonModel::TargetConfigurationChanged => spec_explain_target(),
        ReasonModel::FileChanged { path } => spec_explain_file(path),
        ReasonModel::Unknown(msg) => spec_explain_unknown(msg),
    }
}

} // verus!
