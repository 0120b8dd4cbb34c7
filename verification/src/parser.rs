//! The log-line parser.
//!
//! One line of build-tool diagnostic text is matched against a fixed set of
//! known shapes after the `dirty:` marker; the first shape that fully
//! parses yields the reason. A shape either parses its whole expected
//! sub-structure or the line is rejected for that shape — no partial
//! results. Every failure path yields `None`, never a panic, because the
//! upstream format carries no stability guarantee.
//!
//! Each spec function models one step of the grammar over a `Seq<char>`
//! together with the position where parsing resumes; the executable
//! functions are proved to return exactly what the model says.

use vstd::prelude::*;
use vstd::string::StrSliceExecFns;

use crate::graph::PackageTarget;
use crate::graph::PackageTargetModel;
use crate::reason::RebuildReason;
use crate::reason::ReasonModel;
use crate::text::contains_sub;
use crate::text::spec_find;
use crate::text::spec_trim;
use crate::text::tag_at;
use crate::text::find_sub;
use crate::text::tag_matches_at;
use crate::text::trim_str;

verus! {

/// The characters the grammar skips between tokens (space and tab).
pub open spec fn is_space_char(c: char) -> bool {
    c == ' ' || c == '\t'
}

/// A decimal digit.
pub open spec fn is_digit_char(c: char) -> bool {
    '0' <= c && c <= '9'
}

/// First position at or after `i` holding a non-space character.
pub open spec fn sp_skip_spaces(s: Seq<char>, i: int) -> int
    recommends
        0 <= i <= s.len(),
    decreases s.len() - i,
{
    if i < 0 || i >= s.len() {
        i
    } else if is_space_char(s[i]) {
        sp_skip_spaces(s, i + 1)
    } else {
        i
    }
}

/// First position at or after `i` holding a non-digit character.
pub open spec fn sp_skip_digits(s: Seq<char>, i: int) -> int
    recommends
        0 <= i <= s.len(),
    decreases s.len() - i,
{
    if i < 0 || i >= s.len() {
        i
    } else if is_digit_char(s[i]) {
        sp_skip_digits(s, i + 1)
    } else {
        i
    }
}

/// Position of the first occurrence of `c` at or after `from`.
pub open spec fn sp_find_char(s: Seq<char>, c: char, from: int) -> Option<int>
    recommends
        0 <= from,
    decreases s.len() - from,
{
    if from < 0 || from >= s.len() {
        None
    } else if s[from] == c {
        Some(from)
    } else {
        sp_find_char(s, c, from + 1)
    }
}

/// Consumes the literal `t` at position `i`.
pub open spec fn sp_tag(s: Seq<char>, i: int, t: Seq<char>) -> Option<int> {
    if tag_at(s, i, t) {
        Some(i + t.len())
    } else {
        None
    }
}

/// Consumes the single character `c` at position `i`.
pub open spec fn sp_char(s: Seq<char>, i: int, c: char) -> Option<int> {
    if 0 <= i < s.len() && s[i] == c {
        Some(i + 1)
    } else {
        None
    }
}

/// Consumes a quoted string: a `"`, the value (all characters up to the
/// next `"`, which may be none), and the closing `"`.
pub open spec fn sp_quoted(s: Seq<char>, i: int) -> Option<(int, Seq<char>)> {
    if 0 <= i < s.len() && s[i] == '"' {
        match sp_find_char(s, '"', i + 1) {
            None => None,
            Some(j) => Some((j + 1, s.subrange(i + 1, j))),
        }
    } else {
        None
    }
}

/// Consumes one or more decimal digits, kept as text.
pub open spec fn sp_number(s: Seq<char>, i: int) -> Option<(int, Seq<char>)> {
    let j = sp_skip_digits(s, i);
    if 0 <= i && j > i {
        Some((j, s.subrange(i, j)))
    } else {
        None
    }
}

/// Consumes `None`, or `Some(` followed by a quoted string and `)`.
pub open spec fn sp_option_string(s: Seq<char>, i: int) -> Option<(int, Option<Seq<char>>)> {
    match sp_tag(s, i, "None"@) {
        Some(j) => Some((j, None)),
        None => match sp_tag(s, i, "Some("@) {
            None => None,
            Some(j) => match sp_quoted(s, j) {
                None => None,
                Some((j2, v)) => match sp_char(s, j2, ')') {
                    None => None,
                    Some(j3) => Some((j3, Some(v))),
                },
            },
        },
    }
}

/// Consumes a comma with optional surrounding spaces.
pub open spec fn sp_comma(s: Seq<char>, i: int) -> Option<int> {
    match sp_char(s, sp_skip_spaces(s, i), ',') {
        None => None,
        Some(j) => Some(sp_skip_spaces(s, j)),
    }
}

/// Consumes a field header: the field name, optional spaces, `:`, optional
/// spaces.
pub open spec fn sp_field(s: Seq<char>, i: int, name: Seq<char>) -> Option<int> {
    match sp_tag(s, i, name) {
        None => None,
        Some(j) => match sp_char(s, sp_skip_spaces(s, j), ':') {
            None => None,
            Some(j2) => Some(sp_skip_spaces(s, j2)),
        },
    }
}

/// Consumes an opening brace with optional surrounding spaces.
pub open spec fn sp_open_brace(s: Seq<char>, i: int) -> Option<int> {
    match sp_char(s, sp_skip_spaces(s, i), '{') {
        None => None,
        Some(j) => Some(sp_skip_spaces(s, j)),
    }
}

/// Consumes a closing brace preceded by optional spaces.
pub open spec fn sp_close_brace(s: Seq<char>, i: int) -> Option<int> {
    sp_char(s, sp_skip_spaces(s, i), '}')
}

fn char_at_is_space(s: &str, i: usize) -> (r: bool)
    requires
        i < s@.len(),
    ensures
        r == is_space_char(s@[i as int]),
{
    let c = s.get_char(i);
    c == ' ' || c == '\t'
}

fn char_at_is_digit(s: &str, i: usize) -> (r: bool)
    requires
        i < s@.len(),
    ensures
        r == is_digit_char(s@[i as int]),
{
    let c = s.get_char(i);
    '0' <= c && c <= '9'
}

fn skip_spaces(s: &str, i: usize) -> (r: usize)
    requires
        i <= s@.len(),
    ensures
        r == sp_skip_spaces(s@, i as int),
        i <= r <= s@.len(),
{
    let n = s.unicode_len();
    let mut cur: usize = i;
    while cur < n && char_at_is_space(s, cur)
        invariant
            n == s@.len(),
            i <= cur <= n,
            sp_skip_spaces(s@, i as int) == sp_skip_spaces(s@, cur as int),
        decreases n - cur,
    {
        cur += 1;
    }
    cur
}

fn skip_digits(s: &str, i: usize) -> (r: usize)
    requires
        i <= s@.len(),
    ensures
        r == sp_skip_digits(s@, i as int),
        i <= r <= s@.len(),
{
    let n = s.unicode_len();
    let mut cur: usize = i;
    while cur < n && char_at_is_digit(s, cur)
        invariant
            n == s@.len(),
            i <= cur <= n,
            sp_skip_digits(s@, i as int) == sp_skip_digits(s@, cur as int),
        decreases n - cur,
    {
        cur += 1;
    }
    cur
}

fn find_char_from(s: &str, c: char, from: usize) -> (r: Option<usize>)
    requires
        from <= s@.len(),
    ensures
        match r {
            Some(j) => sp_find_char(s@, c, from as int) == Some(j as int) && from <= j
                < s@.len(),
            None => sp_find_char(s@, c, from as int) is None,
        },
{
    let n = s.unicode_len();
    let mut cur: usize = from;
    while cur < n
        invariant
            n == s@.len(),
            from <= cur <= n,
            sp_find_char(s@, c, from as int) == sp_find_char(s@, c, cur as int),
        decreases n - cur,
    {
        if s.get_char(cur) == c {
            return Some(cur);
        }
        cur += 1;
    }
    None
}

fn p_tag(s: &str, i: usize, t: &str) -> (r: Option<usize>)
    requires
        i <= s@.len(),
    ensures
        match r {
            Some(j) => sp_tag(s@, i as int, t@) == Some(j as int) && i <= j <= s@.len(),
            None => sp_tag(s@, i as int, t@) is None,
        },
{
    // binding the length shows that positions within the string fit in usize
    let _n = s.unicode_len();
    if tag_matches_at(s, i, t) {
        Some(i + t.unicode_len())
    } else {
        None
    }
}

fn p_char(s: &str, i: usize, c: char) -> (r: Option<usize>)
    requires
        i <= s@.len(),
    ensures
        match r {
            Some(j) => sp_char(s@, i as int, c) == Some(j as int) && i < j <= s@.len(),
            None => sp_char(s@, i as int, c) is None,
        },
{
    let n = s.unicode_len();
    if i < n && s.get_char(i) == c {
        Some(i + 1)
    } else {
        None
    }
}

/// Consumes a comma with optional surrounding spaces; see [`sp_comma`].
pub fn parse_comma(s: &str, i: usize) -> (r: Option<usize>)
    requires
        i <= s@.len(),
    ensures
        match r {
            Some(j) => sp_comma(s@, i as int) == Some(j as int) && j <= s@.len(),
            None => sp_comma(s@, i as int) is None,
        },
{
    let j = skip_spaces(s, i);
    match p_char(s, j, ',') {
        None => None,
        Some(j2) => Some(skip_spaces(s, j2)),
    }
}

fn p_field(s: &str, i: usize, name: &str) -> (r: Option<usize>)
    requires
        i <= s@.len(),
    ensures
        match r {
            Some(j) => sp_field(s@, i as int, name@) == Some(j as int) && j <= s@.len(),
            None => sp_field(s@, i as int, name@) is None,
        },
{
    let j = match p_tag(s, i, name) {
        None => return None,
        Some(j) => j,
    };
    let j2 = skip_spaces(s, j);
    match p_char(s, j2, ':') {
        None => None,
        Some(j3) => Some(skip_spaces(s, j3)),
    }
}

fn p_open_brace(s: &str, i: usize) -> (r: Option<usize>)
    requires
        i <= s@.len(),
    ensures
        match r {
            Some(j) => sp_open_brace(s@, i as int) == Some(j as int) && j <= s@.len(),
            None => sp_open_brace(s@, i as int) is None,
        },
{
    let j = skip_spaces(s, i);
    match p_char(s, j, '{') {
        None => None,
        Some(j2) => Some(skip_spaces(s, j2)),
    }
}

fn p_close_brace(s: &str, i: usize) -> (r: Option<usize>)
    requires
        i <= s@.len(),
    ensures
        match r {
            Some(j) => sp_close_brace(s@, i as int) == Some(j as int) && j <= s@.len(),
            None => sp_close_brace(s@, i as int) is None,
        },
{
    let j = skip_spaces(s, i);
    p_char(s, j, '}')
}

/// Consumes a quoted string and returns its contents; see [`sp_quoted`].
pub fn parse_quoted_string(s: &str, i: usize) -> (r: Option<(usize, String)>)
    requires
        i <= s@.len(),
    ensures
        match r {
            Some((j, v)) => sp_quoted(s@, i as int) == Some((j as int, v@)) && j <= s@.len(),
            None => sp_quoted(s@, i as int) is None,
        },
{
    let n = s.unicode_len();
    if i >= n || s.get_char(i) != '"' {
        return None;
    }
    match find_char_from(s, '"', i + 1) {
        None => None,
        Some(j) => {
            let v = s.substring_char(i + 1, j).to_owned();
            Some((j + 1, v))
        },
    }
}

/// Consumes a run of decimal digits, kept as text; see [`sp_number`].
pub fn parse_number(s: &str, i: usize) -> (r: Option<(usize, String)>)
    requires
        i <= s@.len(),
    ensures
        match r {
            Some((j, v)) => sp_number(s@, i as int) == Some((j as int, v@)) && j <= s@.len(),
            None => sp_number(s@, i as int) is None,
        },
{
    let j = skip_digits(s, i);
    if j > i {
        let v = s.substring_char(i, j).to_owned();
        Some((j, v))
    } else {
        None
    }
}

/// Consumes a field header followed by a quoted string value.
pub open spec fn sp_quoted_field(s: Seq<char>, i: int, name: Seq<char>) -> Option<
    (int, Seq<char>),
> {
    match sp_field(s, i, name) {
        None => None,
        Some(j) => sp_quoted(s, j),
    }
}

/// Consumes a field header followed by a run of digits.
pub open spec fn sp_number_field(s: Seq<char>, i: int, name: Seq<char>) -> Option<
    (int, Seq<char>),
> {
    match sp_field(s, i, name) {
        None => None,
        Some(j) => sp_number(s, j),
    }
}

/// Consumes a field header followed by an optional quoted string value.
pub open spec fn sp_option_field(s: Seq<char>, i: int, name: Seq<char>) -> Option<
    (int, Option<Seq<char>>),
> {
    match sp_field(s, i, name) {
        None => None,
        Some(j) => sp_option_string(s, j),
    }
}

/// Consumes `None` or `Some("...")`; see [`sp_option_string`].
pub fn parse_option_string(s: &str, i: usize) -> (r: Option<(usize, Option<String>)>)
    requires
        i <= s@.len(),
    ensures
        match r {
            Some((j, v)) => sp_option_string(s@, i as int) == Some((j as int, v.deep_view()))
                && j <= s@.len(),
            None => sp_option_string(s@, i as int) is None,
        },
{
    match p_tag(s, i, "None") {
        Some(j) => Some((j, None)),
        None => {
            let j = match p_tag(s, i, "Some(") {
                None => return None,
                Some(j) => j,
            };
            let (j2, v) = match parse_quoted_string(s, j) {
                None => return None,
                Some(x) => x,
            };
            match p_char(s, j2, ')') {
                None => None,
                Some(j3) => Some((j3, Some(v))),
            }
        },
    }
}

fn p_quoted_field(s: &str, i: usize, name: &str) -> (r: Option<(usize, String)>)
    requires
        i <= s@.len(),
    ensures
        match r {
            Some((j, v)) => sp_quoted_field(s@, i as int, name@) == Some((j as int, v@)) && j
                <= s@.len(),
            None => sp_quoted_field(s@, i as int, name@) is None,
        },
{
    match p_field(s, i, name) {
        None => None,
        Some(j) => parse_quoted_string(s, j),
    }
}

fn p_number_field(s: &str, i: usize, name: &str) -> (r: Option<(usize, String)>)
    requires
        i <= s@.len(),
    ensures
        match r {
            Some((j, v)) => sp_number_field(s@, i as int, name@) == Some((j as int, v@)) && j
                <= s@.len(),
            None => sp_number_field(s@, i as int, name@) is None,
        },
{
    match p_field(s, i, name) {
        None => None,
        Some(j) => parse_number(s, j),
    }
}

fn p_option_field(s: &str, i: usize, name: &str) -> (r: Option<(usize, Option<String>)>)
    requires
        i <= s@.len(),
    ensures
        match r {
            Some((j, v)) => sp_option_field(s@, i as int, name@) == Some(
                (j as int, v.deep_view()),
            ) && j <= s@.len(),
            None => sp_option_field(s@, i as int, name@) is None,
        },
{
    match p_field(s, i, name) {
        None => None,
        Some(j) => parse_option_string(s, j),
    }
}

/// The shape `EnvVarChanged { name: "..", old_value: .., new_value: .. }`.
pub open spec fn sp_env_var_changed(s: Seq<char>, i: int) -> Option<(int, ReasonModel)> {
    match sp_tag(s, i, "EnvVarChanged"@) {
        None => None,
        Some(i1) => match sp_open_brace(s, i1) {
            None => None,
            Some(i2) => match sp_quoted_field(s, i2, "name"@) {
                None => None,
                Some((i3, name)) => match sp_comma(s, i3) {
                    None => None,
                    Some(i4) => match sp_option_field(s, i4, "old_value"@) {
                        None => None,
                        Some((i5, old_value)) => match sp_comma(s, i5) {
                            None => None,
                            Some(i6) => match sp_option_field(s, i6, "new_value"@) {
                                None => None,
                                Some((i7, new_value)) => match sp_close_brace(s, i7) {
                                    None => None,
                                    Some(i8) => Some(
                                        (
                                            i8,
                                            ReasonModel::EnvVarChanged {
                                                name,
                                                old_value,
                                                new_value,
                                            },
                                        ),
                                    ),
                                },
                            },
                        },
                    },
                },
            },
        },
    }
}

/// Parses the env-var-changed shape; see [`sp_env_var_changed`].
pub fn parse_env_var_changed(s: &str, i: usize) -> (r: Option<(usize, RebuildReason)>)
    requires
        i <= s@.len(),
    ensures
        match r {
            Some((j, reason)) => sp_env_var_changed(s@, i as int) == Some(
                (j as int, reason.deep_view()),
            ) && j <= s@.len(),
            None => sp_env_var_changed(s@, i as int) is None,
        },
{
    let i1 = match p_tag(s, i, "EnvVarChanged") {
        None => return None,
        Some(j) => j,
    };
    let i2 = match p_open_brace(s, i1) {
        None => return None,
        Some(j) => j,
    };
    let (i3, name) = match p_quoted_field(s, i2, "name") {
        None => return None,
        Some(x) => x,
    };
    let i4 = match parse_comma(s, i3) {
        None => return None,
        Some(j) => j,
    };
    let (i5, old_value) = match p_option_field(s, i4, "old_value") {
        None => return None,
        Some(x) => x,
    };
    let i6 = match parse_comma(s, i5) {
        None => return None,
        Some(j) => j,
    };
    let (i7, new_value) = match p_option_field(s, i6, "new_value") {
        None => return None,
        Some(x) => x,
    };
    let i8 = match p_close_brace(s, i7) {
        None => return None,
        Some(j) => j,
    };
    Some((i8, RebuildReason::EnvVarChanged { name, old_value, new_value }))
}

/// The shape `UnitDependencyInfoChanged { old_name: "..", old_fingerprint:
/// .., new_name: "..", new_fingerprint: .. }`. The new name is consumed but
/// not kept: the cascade is about which dependency, named once.
pub open spec fn sp_unit_dependency_info_changed(s: Seq<char>, i: int) -> Option<
    (int, ReasonModel),
> {
    match sp_tag(s, i, "UnitDependencyInfoChanged"@) {
        None => None,
        Some(i1) => match sp_open_brace(s, i1) {
            None => None,
            Some(i2) => match sp_quoted_field(s, i2, "old_name"@) {
                None => None,
                Some((i3, old_name)) => match sp_comma(s, i3) {
                    None => None,
                    Some(i4) => match sp_number_field(s, i4, "old_fingerprint"@) {
                        None => None,
                        Some((i5, old_fingerprint)) => match sp_comma(s, i5) {
                            None => None,
                            Some(i6) => match sp_quoted_field(s, i6, "new_name"@) {
                                None => None,
                                Some((i7, _new_name)) => match sp_comma(s, i7) {
                                    None => None,
                                    Some(i8) => match sp_number_field(
                                        s,
                                        i8,
                                        "new_fingerprint"@,
                                    ) {
                                        None => None,
                                        Some((i9, new_fingerprint)) => match sp_close_brace(
                                            s,
                                            i9,
                                        ) {
                                            None => None,
                                            Some(i10) => Some(
                                                (
                                                    i10,
                                                    ReasonModel::UnitDependencyInfoChanged {
                                                        name: old_name,
                                                        old_fingerprint,
                                                        new_fingerprint,
                                                        context: None,
                                                    },
                                                ),
                                            ),
                                        },
                                    },
                                },
                            },
                        },
                    },
                },
            },
        },
    }
}

/// Parses the dependency-change shape; see
/// [`sp_unit_dependency_info_changed`].
pub fn parse_unit_dependency_info_changed(s: &str, i: usize) -> (r: Option<(usize, RebuildReason)>)
    requires
        i <= s@.len(),
    ensures
        match r {
            Some((j, reason)) => sp_unit_dependency_info_changed(s@, i as int) == Some(
                (j as int, reason.deep_view()),
            ) && j <= s@.len(),
            None => sp_unit_dependency_info_changed(s@, i as int) is None,
        },
{
    let i1 = match p_tag(s, i, "UnitDependencyInfoChanged") {
        None => return None,
        Some(j) => j,
    };
    let i2 = match p_open_brace(s, i1) {
        None => return None,
        Some(j) => j,
    };
    let (i3, old_name) = match p_quoted_field(s, i2, "old_name") {
        None => return None,
        Some(x) => x,
    };
    let i4 = match parse_comma(s, i3) {
        None => return None,
        Some(j) => j,
    };
    let (i5, old_fingerprint) = match p_number_field(s, i4, "old_fingerprint") {
        None => return None,
        Some(x) => x,
    };
    let i6 = match parse_comma(s, i5) {
        None => return None,
        Some(j) => j,
    };
    let (i7, _new_name) = match p_quoted_field(s, i6, "new_name") {
        None => return None,
        Some(x) => x,
    };
    let i8 = match parse_comma(s, i7) {
        None => return None,
        Some(j) => j,
    };
    let (i9, new_fingerprint) = match p_number_field(s, i8, "new_fingerprint") {
        None => return None,
        Some(x) => x,
    };
    let i10 = match p_close_brace(s, i9) {
        None => return None,
        Some(j) => j,
    };
    Some(
        (
            i10,
            RebuildReason::UnitDependencyInfoChanged {
                name: old_name,
                old_fingerprint,
                new_fingerprint,
                context: None,
            },
        ),
    )
}

/// The bare shape `TargetConfigurationChanged`.
pub open spec fn sp_target_configuration_changed(s: Seq<char>, i: int) -> Option<
    (int, ReasonModel),
> {
    match sp_tag(s, i, "TargetConfigurationChanged"@) {
        None => None,
        Some(j) => Some((j, ReasonModel::TargetConfigurationChanged)),
    }
}

/// Parses the target-configuration shape; see
/// [`sp_target_configuration_changed`].
pub fn parse_target_configuration_changed(s: &str, i: usize) -> (r: Option<(usize, RebuildReason)>)
    requires
        i <= s@.len(),
    ensures
        match r {
            Some((j, reason)) => sp_target_configuration_changed(s@, i as int) == Some(
                (j as int, reason.deep_view()),
            ) && j <= s@.len(),
            None => sp_target_configuration_changed(s@, i as int) is None,
        },
{
    match p_tag(s, i, "TargetConfigurationChanged") {
        None => None,
        Some(j) => Some((j, RebuildReason::TargetConfigurationChanged)),
    }
}

/// The shape `FileTime { seconds: .., nanos: .. }`; both values are
/// consumed and discarded.
pub open spec fn sp_file_time(s: Seq<char>, i: int) -> Option<int> {
    match sp_tag(s, i, "FileTime"@) {
        None => None,
        Some(i1) => match sp_open_brace(s, i1) {
            None => None,
            Some(i2) => match sp_number_field(s, i2, "seconds"@) {
                None => None,
                Some((i3, _seconds)) => match sp_comma(s, i3) {
                    None => None,
                    Some(i4) => match sp_number_field(s, i4, "nanos"@) {
                        None => None,
                        Some((i5, _nanos)) => sp_close_brace(s, i5),
                    },
                },
            },
        },
    }
}

/// Parses a file-time stamp, discarding it; see [`sp_file_time`].
pub fn parse_file_time(s: &str, i: usize) -> (r: Option<usize>)
    requires
        i <= s@.len(),
    ensures
        match r {
            Some(j) => sp_file_time(s@, i as int) == Some(j as int) && j <= s@.len(),
            None => sp_file_time(s@, i as int) is None,
        },
{
    let i1 = match p_tag(s, i, "FileTime") {
        None => return None,
        Some(j) => j,
    };
    let i2 = match p_open_brace(s, i1) {
        None => return None,
        Some(j) => j,
    };
    let (i3, _seconds) = match p_number_field(s, i2, "seconds") {
        None => return None,
        Some(x) => x,
    };
    let i4 = match parse_comma(s, i3) {
        None => return None,
        Some(j) => j,
    };
    let (i5, _nanos) = match p_number_field(s, i4, "nanos") {
        None => return None,
        Some(x) => x,
    };
    p_close_brace(s, i5)
}

/// The shape `ChangedFile { reference: "..", reference_mtime: FileTime ..,
/// stale: "..", stale_mtime: FileTime .. }`; only the stale path is kept.
pub open spec fn sp_changed_file(s: Seq<char>, i: int) -> Option<(int, Seq<char>)> {
    match sp_tag(s, i, "ChangedFile"@) {
        None => None,
        Some(i1) => match sp_open_brace(s, i1) {
            None => None,
            Some(i2) => match sp_quoted_field(s, i2, "reference"@) {
                None => None,
                Some((i3, _reference)) => match sp_comma(s, i3) {
                    None => None,
                    Some(i4) => match sp_field(s, i4, "reference_mtime"@) {
                        None => None,
                        Some(i5) => match sp_file_time(s, i5) {
                            None => None,
                            Some(i6) => match sp_comma(s, i6) {
                                None => None,
                                Some(i7) => match sp_quoted_field(s, i7, "stale"@) {
                                    None => None,
                                    Some((i8, stale_path)) => match sp_comma(s, i8) {
                                        None => None,
                                        Some(i9) => match sp_field(s, i9, "stale_mtime"@) {
                                            None => None,
                                            Some(i10) => match sp_file_time(s, i10) {
                                                None => None,
                                                Some(i11) => match sp_close_brace(s, i11) {
                                                    None => None,
                                                    Some(i12) => Some((i12, stale_path)),
                                                },
                                            },
                                        },
                                    },
                                },
                            },
                        },
                    },
                },
            },
        },
    }
}

/// Parses a changed-file record, keeping the stale path; see
/// [`sp_changed_file`].
pub fn parse_changed_file(s: &str, i: usize) -> (r: Option<(usize, String)>)
    requires
        i <= s@.len(),
    ensures
        match r {
            Some((j, v)) => sp_changed_file(s@, i as int) == Some((j as int, v@)) && j
                <= s@.len(),
            None => sp_changed_file(s@, i as int) is None,
        },
{
    let i1 = match p_tag(s, i, "ChangedFile") {
        None => return None,
        Some(j) => j,
    };
    let i2 = match p_open_brace(s, i1) {
        None => return None,
        Some(j) => j,
    };
    let (i3, _reference) = match p_quoted_field(s, i2, "reference") {
        None => return None,
        Some(x) => x,
    };
    let i4 = match parse_comma(s, i3) {
        None => return None,
        Some(j) => j,
    };
    let i5 = match p_field(s, i4, "reference_mtime") {
        None => return None,
        Some(j) => j,
    };
    let i6 = match parse_file_time(s, i5) {
        None => return None,
        Some(j) => j,
    };
    let i7 = match parse_comma(s, i6) {
        None => return None,
        Some(j) => j,
    };
    let (i8, stale_path) = match p_quoted_field(s, i7, "stale") {
        None => return None,
        Some(x) => x,
    };
    let i9 = match parse_comma(s, i8) {
        None => return None,
        Some(j) => j,
    };
    let i10 = match p_field(s, i9, "stale_mtime") {
        None => return None,
        Some(j) => j,
    };
    let i11 = match parse_file_time(s, i10) {
        None => return None,
        Some(j) => j,
    };
    match p_close_brace(s, i11) {
        None => None,
        Some(i12) => Some((i12, stale_path)),
    }
}

/// The shape `FsStatusOutdated(StaleItem(ChangedFile { .. }))`, read as a
/// file change.
pub open spec fn sp_fs_status_outdated_changed_file(s: Seq<char>, i: int) -> Option<
    (int, ReasonModel),
> {
    match sp_tag(s, i, "FsStatusOutdated"@) {
        None => None,
        Some(i1) => match sp_char(s, i1, '(') {
            None => None,
            Some(i2) => match sp_tag(s, i2, "StaleItem"@) {
                None => None,
                Some(i3) => match sp_char(s, i3, '(') {
                    None => None,
                    Some(i4) => match sp_changed_file(s, i4) {
                        None => None,
                        Some((i5, path)) => match sp_char(s, i5, ')') {
                            None => None,
                            Some(i6) => match sp_char(s, i6, ')') {
                                None => None,
                                Some(i7) => Some((i7, ReasonModel::FileChanged { path })),
                            },
                        },
                    },
                },
            },
        },
    }
}

/// Parses the stale-file shape; see [`sp_fs_status_outdated_changed_file`].
pub fn parse_fs_status_outdated_changed_file(s: &str, i: usize) -> (r: Option<
    (usize, RebuildReason),
>)
    requires
        i <= s@.len(),
    ensures
        match r {
            Some((j, reason)) => sp_fs_status_outdated_changed_file(s@, i as int) == Some(
                (j as int, reason.deep_view()),
            ) && j <= s@.len(),
            None => sp_fs_status_outdated_changed_file(s@, i as int) is None,
        },
{
    let i1 = match p_tag(s, i, "FsStatusOutdated") {
        None => return None,
        Some(j) => j,
    };
    let i2 = match p_char(s, i1, '(') {
        None => return None,
        Some(j) => j,
    };
    let i3 = match p_tag(s, i2, "StaleItem") {
        None => return None,
        Some(j) => j,
    };
    let i4 = match p_char(s, i3, '(') {
        None => return None,
        Some(j) => j,
    };
    let (i5, path) = match parse_changed_file(s, i4) {
        None => return None,
        Some(x) => x,
    };
    let i6 = match p_char(s, i5, ')') {
        None => return None,
        Some(j) => j,
    };
    match p_char(s, i6, ')') {
        None => None,
        Some(i7) => Some((i7, RebuildReason::FileChanged { path })),
    }
}

/// The shape `FsStatusOutdated(StaleDepFingerprint { name: ".." })`, read
/// as a dependency change with unknown fingerprints.
pub open spec fn sp_fs_status_outdated_stale_dep(s: Seq<char>, i: int) -> Option<
    (int, ReasonModel),
> {
    match sp_tag(s, i, "FsStatusOutdated"@) {
        None => None,
        Some(i1) => match sp_char(s, i1, '(') {
            None => None,
            Some(i2) => match sp_tag(s, i2, "StaleDepFingerprint"@) {
                None => None,
                Some(i3) => match sp_open_brace(s, i3) {
                    None => None,
                    Some(i4) => match sp_quoted_field(s, i4, "name"@) {
                        None => None,
                        Some((i5, name)) => match sp_close_brace(s, i5) {
                            None => None,
                            Some(i6) => match sp_char(s, i6, ')') {
                                None => None,
                                Some(i7) => Some(
                                    (
                                        i7,
                                        ReasonModel::UnitDependencyInfoChanged {
                                            name,
                                            old_fingerprint: Seq::empty(),
                                            new_fingerprint: Seq::empty(),
                                            context: None,
                                        },
                                    ),
                                ),
                            },
                        },
                    },
                },
            },
        },
    }
}

/// Parses the stale-dependency shape; see
/// [`sp_fs_status_outdated_stale_dep`].
pub fn parse_fs_status_outdated_stale_dep(s: &str, i: usize) -> (r: Option<(usize, RebuildReason)>)
    requires
        i <= s@.len(),
    ensures
        match r {
            Some((j, reason)) => sp_fs_status_outdated_stale_dep(s@, i as int) == Some(
                (j as int, reason.deep_view()),
            ) && j <= s@.len(),
            None => sp_fs_status_outdated_stale_dep(s@, i as int) is None,
        },
{
    let i1 = match p_tag(s, i, "FsStatusOutdated") {
        None => return None,
        Some(j) => j,
    };
    let i2 = match p_char(s, i1, '(') {
        None => return None,
        Some(j) => j,
    };
    let i3 = match p_tag(s, i2, "StaleDepFingerprint") {
        None => return None,
        Some(j) => j,
    };
    let i4 = match p_open_brace(s, i3) {
        None => return None,
        Some(j) => j,
    };
    let (i5, name) = match p_quoted_field(s, i4, "name") {
        None => return None,
        Some(x) => x,
    };
    let i6 = match p_close_brace(s, i5) {
        None => return None,
        Some(j) => j,
    };
    match p_char(s, i6, ')') {
        None => None,
        Some(i7) => Some(
            (
                i7,
                RebuildReason::UnitDependencyInfoChanged {
                    name,
                    old_fingerprint: String::new(),
                    new_fingerprint: String::new(),
                    context: None,
                },
            ),
        ),
    }
}

/// The shapes tried after the dirty marker, in a fixed priority order; the
/// first that fully parses wins.
pub open spec fn sp_dirty_reason_content(s: Seq<char>, i: int) -> Option<(int, ReasonModel)> {
    if sp_env_var_changed(s, i) is Some {
        sp_env_var_changed(s, i)
    } else if sp_unit_dependency_info_changed(s, i) is Some {
        sp_unit_dependency_info_changed(s, i)
    } else if sp_target_configuration_changed(s, i) is Some {
        sp_target_configuration_changed(s, i)
    } else if sp_fs_status_outdated_stale_dep(s, i) is Some {
        sp_fs_status_outdated_stale_dep(s, i)
    } else {
        sp_fs_status_outdated_changed_file(s, i)
    }
}

/// Tries every known shape in order; see [`sp_dirty_reason_content`].
pub fn parse_dirty_reason_content(s: &str, i: usize) -> (r: Option<(usize, RebuildReason)>)
    requires
        i <= s@.len(),
    ensures
        match r {
            Some((j, reason)) => sp_dirty_reason_content(s@, i as int) == Some(
                (j as int, reason.deep_view()),
            ) && j <= s@.len(),
            None => sp_dirty_reason_content(s@, i as int) is None,
        },
{
    if let Some(x) = parse_env_var_changed(s, i) {
        return Some(x);
    }
    if let Some(x) = parse_unit_dependency_info_changed(s, i) {
        return Some(x);
    }
    if let Some(x) = parse_target_configuration_changed(s, i) {
        return Some(x);
    }
    if let Some(x) = parse_fs_status_outdated_stale_dep(s, i) {
        return Some(x);
    }
    parse_fs_status_outdated_changed_file(s, i)
}

/// What one log line means: `None` when the line carries no dirty marker
/// or no known shape follows it, otherwise exactly one reason.
pub open spec fn spec_parse_reason(s: Seq<char>) -> Option<ReasonModel> {
    match spec_find(s, "dirty:"@, 0) {
        None => None,
        Some(d) => {
            let j = sp_skip_spaces(s, d + "dirty:"@.len());
            match sp_dirty_reason_content(s, j) {
                None => None,
                Some((_end, reason)) => Some(reason),
            }
        },
    }
}

/// Parses the reason out of one log line.
///
/// Only `dirty:` lines are parsed: `stale:` lines are redundant with the
/// stale-file shape and name the wrong compilation unit, so they yield no
/// reason here.
pub fn parse_rebuild_reason(input: &str) -> (r: Option<RebuildReason>)
    ensures
        r.deep_view() == spec_parse_reason(input@),
{
    let marker = "dirty:";
    // binding the length shows that positions within the line fit in usize
    let _n = input.unicode_len();
    let d = match find_sub(input, marker) {
        None => return None,
        Some(d) => d,
    };
    proof {
        crate::text::lemma_spec_find_some(input@, marker@, 0);
    }
    let j = skip_spaces(input, d + marker.unicode_len());
    match parse_dirty_reason_content(input, j) {
        None => None,
        Some((_end, reason)) => Some(reason),
    }
}

/// No `"` anywhere in `v`.
pub open spec fn seq_has_no_quote(v: Seq<char>) -> bool {
    forall|k: int| 0 <= k < v.len() ==> v[k] != '"'
}

/// No `"` anywhere in the value, when there is one.
pub open spec fn opt_has_no_quote(o: Option<Seq<char>>) -> bool {
    match o {
        None => true,
        Some(v) => seq_has_no_quote(v),
    }
}

/// The textual rendering of an optional value, as the build tool prints
/// it.
pub open spec fn spec_render_opt(o: Option<Seq<char>>) -> Seq<char> {
    match o {
        None => "None"@,
        Some(v) => "Some(\""@ + v + "\")"@,
    }
}

/// The textual rendering of an env-var-changed verdict, as the build tool
/// prints it.
pub open spec fn spec_render_env_var(
    name: Seq<char>,
    old: Option<Seq<char>>,
    new: Option<Seq<char>>,
) -> Seq<char> {
    "dirty: EnvVarChanged { name: \""@ + name + "\", old_value: "@ + spec_render_opt(old)
        + ", new_value: "@ + spec_render_opt(new) + " }"@
}

proof fn lemma_find_char_is(s: Seq<char>, c: char, from: int, j: int)
    requires
        0 <= from <= j < s.len(),
        s[j] == c,
        forall|k: int| from <= k < j ==> s[k] != c,
    ensures
        sp_find_char(s, c, from) == Some(j),
    decreases j - from,
{
    if from < j {
        lemma_find_char_is(s, c, from + 1, j);
    }
}

proof fn lemma_quoted_value(s: Seq<char>, i: int, v: Seq<char>)
    requires
        0 <= i,
        i + v.len() + 2 <= s.len(),
        s[i] == '"',
        forall|k: int| 0 <= k < v.len() ==> s[i + 1 + k] == v[k],
        seq_has_no_quote(v),
        s[i + 1 + v.len()] == '"',
    ensures
        sp_quoted(s, i) == Some((i + v.len() + 2, v)),
{
    assert forall|k: int| i + 1 <= k < i + 1 + v.len() implies s[k] != '"' by {
        assert(s[k] == v[k - (i + 1)]);
    }
    lemma_find_char_is(s, '"', i + 1, i + 1 + v.len());
    assert(s.subrange(i + 1, i + 1 + v.len()) =~= v);
}

proof fn lemma_option_none(s: Seq<char>, i: int)
    requires
        0 <= i,
        tag_at(s, i, "None"@),
    ensures
        sp_option_string(s, i) == Some((i + 4, None::<Seq<char>>)),
{
    reveal_strlit("None");
}

proof fn lemma_option_some(s: Seq<char>, i: int, v: Seq<char>)
    requires
        0 <= i,
        i + v.len() + 8 <= s.len(),
        tag_at(s, i, "Some("@),
        s[i + 5] == '"',
        forall|k: int| 0 <= k < v.len() ==> s[i + 6 + k] == v[k],
        seq_has_no_quote(v),
        s[i + 6 + v.len()] == '"',
        s[i + 7 + v.len()] == ')',
    ensures
        sp_option_string(s, i) == Some((i + 8 + v.len(), Some(v))),
{
    reveal_strlit("None");
    reveal_strlit("Some(");
    assert(!tag_at(s, i, "None"@)) by {
        if tag_at(s, i, "None"@) {
            assert(s[i] == "None"@[0]);
            assert(s[i] == "Some("@[0]);
        }
    }
    lemma_quoted_value(s, i + 5, v);
    assert(sp_quoted(s, i + 5) == Some((i + 7 + v.len(), v)));
    assert(sp_char(s, i + 7 + v.len(), ')') == Some(i + 8 + v.len()));
}

/// Round trip: every well-formed rendering of an env-var change parses
/// back to exactly that triple, for all four shapes of the two optional
/// values. The values may hold any characters except the quote, which the
/// rendering cannot carry.
#[verifier::rlimit(100)]
#[verifier::spinoff_prover]
pub proof fn lemma_env_var_roundtrip(
    name: Seq<char>,
    old: Option<Seq<char>>,
    new: Option<Seq<char>>,
)
    requires
        seq_has_no_quote(name),
        opt_has_no_quote(old),
        opt_has_no_quote(new),
    ensures
        spec_parse_reason(spec_render_env_var(name, old, new)) == Some(
            ReasonModel::EnvVarChanged { name, old_value: old, new_value: new },
        ),
{
    let l1 = "dirty: EnvVarChanged { name: \""@;
    let l2 = "\", old_value: "@;
    let l3 = ", new_value: "@;
    let l4 = " }"@;
    let ro = spec_render_opt(old);
    let rn = spec_render_opt(new);
    let line = spec_render_env_var(name, old, new);
    reveal_strlit("dirty: EnvVarChanged { name: \"");
    reveal_strlit("\", old_value: ");
    reveal_strlit(", new_value: ");
    reveal_strlit(" }");
    reveal_strlit("dirty:");
    reveal_strlit("EnvVarChanged");
    reveal_strlit("name");
    reveal_strlit("old_value");
    reveal_strlit("new_value");
    reveal_strlit("None");
    reveal_strlit("Some(\"");
    reveal_strlit("Some(");
    reveal_strlit("\")");
    assert(l1.len() == 30);
    assert(l2.len() == 14);
    assert(l3.len() == 13);
    assert(l4.len() == 2);
    let b1 = 30 + name.len() as int;
    let b2 = b1 + 14;
    let b3 = b2 + ro.len() as int;
    let b4 = b3 + 13;
    let b5 = b4 + rn.len() as int;
    assert(line.len() == b5 + 2);
    // where each character of the line comes from
    assert(forall|k: int| 0 <= k < 30 ==> line[k] == l1[k]);
    assert(forall|k: int| 0 <= k < name.len() ==> line[30 + k] == name[k]);
    assert(forall|k: int| 0 <= k < 14 ==> line[b1 + k] == l2[k]);
    assert(forall|k: int| 0 <= k < ro.len() ==> line[b2 + k] == ro[k]);
    assert(forall|k: int| 0 <= k < 13 ==> line[b3 + k] == l3[k]);
    assert(forall|k: int| 0 <= k < rn.len() ==> line[b4 + k] == rn[k]);
    assert(forall|k: int| 0 <= k < 2 ==> line[b5 + k] == l4[k]);
    // the rendering of an optional value starts with `N` or `S`
    assert(ro.len() >= 4 && (ro[0] == 'N' || ro[0] == 'S')) by {
        if old is Some {
            assert(ro[0] == "Some(\""@[0]);
        }
    }
    assert(rn.len() >= 4 && (rn[0] == 'N' || rn[0] == 'S')) by {
        if new is Some {
            assert(rn[0] == "Some(\""@[0]);
        }
    }
    // the marker is found at the start of the line
    assert(tag_at(line, 0, "dirty:"@)) by {
        assert forall|j: int| 0 <= j < 6 implies line[j] == "dirty:"@[j] by {
            assert(line[j] == l1[j]);
        }
    }
    assert(spec_find(line, "dirty:"@, 0) == Some(0int));
    assert(sp_skip_spaces(line, 7) == 7);
    assert(sp_skip_spaces(line, 6) == 7);
    // the shape tag
    assert(tag_at(line, 7, "EnvVarChanged"@)) by {
        assert forall|j: int| 0 <= j < 13 implies line[7 + j] == "EnvVarChanged"@[j] by {
            assert(line[7 + j] == l1[7 + j]);
        }
    }
    assert(sp_tag(line, 7, "EnvVarChanged"@) == Some(20int));
    // the opening brace
    assert(sp_skip_spaces(line, 21) == 21);
    assert(sp_skip_spaces(line, 20) == 21);
    assert(sp_char(line, 21, '{') == Some(22int));
    assert(sp_skip_spaces(line, 23) == 23);
    assert(sp_skip_spaces(line, 22) == 23);
    assert(sp_open_brace(line, 20) == Some(23int));
    // the name field and its quoted value
    assert(tag_at(line, 23, "name"@)) by {
        assert forall|j: int| 0 <= j < 4 implies line[23 + j] == "name"@[j] by {
            assert(line[23 + j] == l1[23 + j]);
        }
    }
    assert(sp_skip_spaces(line, 27) == 27);
    assert(sp_char(line, 27, ':') == Some(28int));
    assert(sp_skip_spaces(line, 29) == 29);
    assert(sp_skip_spaces(line, 28) == 29);
    assert(sp_field(line, 23, "name"@) == Some(29int));
    lemma_quoted_value(line, 29, name);
    assert(sp_quoted_field(line, 23, "name"@) == Some((b1 + 1, name)));
    // the comma after the name
    assert(sp_skip_spaces(line, b1 + 1) == b1 + 1);
    assert(sp_char(line, b1 + 1, ',') == Some(b1 + 2));
    assert(sp_skip_spaces(line, b1 + 3) == b1 + 3);
    assert(sp_skip_spaces(line, b1 + 2) == b1 + 3);
    assert(sp_comma(line, b1 + 1) == Some(b1 + 3));
    // the old-value field
    assert(tag_at(line, b1 + 3, "old_value"@)) by {
        assert forall|j: int| 0 <= j < 9 implies line[b1 + 3 + j] == "old_value"@[j] by {
            assert(line[b1 + 3 + j] == l2[3 + j]);
        }
    }
    assert(sp_skip_spaces(line, b1 + 12) == b1 + 12);
    assert(sp_char(line, b1 + 12, ':') == Some(b1 + 13));
    assert(sp_skip_spaces(line, b2) == b2);
    assert(sp_skip_spaces(line, b1 + 13) == b2);
    assert(sp_field(line, b1 + 3, "old_value"@) == Some(b2));
    // the old value itself
    assert(sp_option_string(line, b2) == Some((b3, old))) by {
        match old {
            None => {
                assert(tag_at(line, b2, "None"@)) by {
                    assert forall|j: int| 0 <= j < 4 implies line[b2 + j] == "None"@[j] by {
                        assert(line[b2 + j] == ro[j]);
                    }
                }
                lemma_option_none(line, b2);
            },
            Some(o) => {
                assert(ro == "Some(\""@ + o + "\")"@);
                assert(tag_at(line, b2, "Some("@)) by {
                    assert forall|j: int| 0 <= j < 5 implies line[b2 + j] == "Some("@[j] by {
                        assert(line[b2 + j] == ro[j]);
                        assert(ro[j] == "Some(\""@[j]);
                    }
                }
                assert(line[b2 + 5] == ro[5] && ro[5] == '"');
                assert(forall|k: int| 0 <= k < o.len() ==> #[trigger] line[b2 + 6 + k] == ro[6 + k]);
                assert(forall|k: int| 0 <= k < o.len() ==> #[trigger] ro[6 + k] == o[k]);
                assert(line[b2 + 6 + o.len() as int] == ro[6 + o.len() as int]);
                assert(ro[6 + o.len() as int] == "\")"@[0]);
                assert(line[b2 + 7 + o.len() as int] == ro[7 + o.len() as int]);
                assert(ro[7 + o.len() as int] == "\")"@[1]);
                lemma_option_some(line, b2, o);
            },
        }
    }
    assert(sp_option_field(line, b1 + 3, "old_value"@) == Some((b3, old)));
    // the comma after the old value
    assert(sp_skip_spaces(line, b3) == b3);
    assert(sp_char(line, b3, ',') == Some(b3 + 1));
    assert(sp_skip_spaces(line, b3 + 2) == b3 + 2);
    assert(sp_skip_spaces(line, b3 + 1) == b3 + 2);
    assert(sp_comma(line, b3) == Some(b3 + 2));
    // the new-value field
    assert(tag_at(line, b3 + 2, "new_value"@)) by {
        assert forall|j: int| 0 <= j < 9 implies line[b3 + 2 + j] == "new_value"@[j] by {
            assert(line[b3 + 2 + j] == l3[2 + j]);
        }
    }
    assert(sp_skip_spaces(line, b3 + 11) == b3 + 11);
    assert(sp_char(line, b3 + 11, ':') == Some(b3 + 12));
    assert(sp_skip_spaces(line, b4) == b4);
    assert(sp_skip_spaces(line, b3 + 12) == b4);
    assert(sp_field(line, b3 + 2, "new_value"@) == Some(b4));
    // the new value itself
    assert(sp_option_string(line, b4) == Some((b5, new))) by {
        match new {
            None => {
                assert(tag_at(line, b4, "None"@)) by {
                    assert forall|j: int| 0 <= j < 4 implies line[b4 + j] == "None"@[j] by {
                        assert(line[b4 + j] == rn[j]);
                    }
                }
                lemma_option_none(line, b4);
            },
            Some(v) => {
                assert(rn == "Some(\""@ + v + "\")"@);
                assert(tag_at(line, b4, "Some("@)) by {
                    assert forall|j: int| 0 <= j < 5 implies line[b4 + j] == "Some("@[j] by {
                        assert(line[b4 + j] == rn[j]);
                        assert(rn[j] == "Some(\""@[j]);
                    }
                }
                assert(line[b4 + 5] == rn[5] && rn[5] == '"');
                assert(forall|k: int| 0 <= k < v.len() ==> #[trigger] line[b4 + 6 + k] == rn[6 + k]);
                assert(forall|k: int| 0 <= k < v.len() ==> #[trigger] rn[6 + k] == v[k]);
                assert(line[b4 + 6 + v.len() as int] == rn[6 + v.len() as int]);
                assert(rn[6 + v.len() as int] == "\")"@[0]);
                assert(line[b4 + 7 + v.len() as int] == rn[7 + v.len() as int]);
                assert(rn[7 + v.len() as int] == "\")"@[1]);
                lemma_option_some(line, b4, v);
            },
        }
    }
    assert(sp_option_field(line, b3 + 2, "new_value"@) == Some((b5, new)));
    // the closing brace
    assert(sp_skip_spaces(line, b5 + 1) == b5 + 1);
    assert(sp_skip_spaces(line, b5) == b5 + 1);
    assert(sp_char(line, b5 + 1, '}') == Some(b5 + 2));
    assert(sp_close_brace(line, b5) == Some(b5 + 2));
    // the whole shape, and the parse
    assert(sp_env_var_changed(line, 7) == Some(
        (b5 + 2, ReasonModel::EnvVarChanged { name, old_value: old, new_value: new }),
    ));
    assert(spec_parse_reason(line) == Some(
        ReasonModel::EnvVarChanged { name, old_value: old, new_value: new },
    ));
}

/// A line without the dirty marker never yields a reason.
pub proof fn lemma_no_marker_no_reason(line: Seq<char>)
    requires
        !contains_sub(line, "dirty:"@),
    ensures
        spec_parse_reason(line) is None,
{
}

/// A line without either staleness marker adds nothing to the analysis.
pub proof fn lemma_no_marker_no_node(nodes: Seq<crate::graph::RebuildNodeModel>, line: Seq<char>)
    requires
        !contains_sub(line, "dirty:"@),
        !contains_sub(line, "stale:"@),
    ensures
        crate::config::spec_process_line(nodes, line) == nodes,
{
}

/// First position holding one of the delimiters that end an unquoted
/// target value: space, closing brace or colon.
pub open spec fn sp_scan_delim(s: Seq<char>, i: int) -> int
    recommends
        0 <= i <= s.len(),
    decreases s.len() - i,
{
    if i < 0 || i >= s.len() {
        i
    } else if s[i] == ' ' || s[i] == '}' || s[i] == ':' {
        i
    } else {
        sp_scan_delim(s, i + 1)
    }
}

/// The target named on a log line, when one is: the value after the
/// `target=` marker, quoted or ending at the first delimiter.
pub open spec fn spec_target_context(line: Seq<char>) -> Option<Seq<char>> {
    match spec_find(line, "target="@, 0) {
        None => None,
        Some(t) => {
            let after = line.subrange(t + "target="@.len(), line.len() as int);
            if after.len() > 0 && after[0] == '"' {
                match sp_find_char(after, '"', 1) {
                    None => None,
                    Some(q) => Some(after.subrange(1, q)),
                }
            } else {
                let v = spec_trim(after.subrange(0, sp_scan_delim(after, 0)));
                if v.len() == 0 {
                    None
                } else {
                    Some(v)
                }
            }
        },
    }
}

/// The compilation unit a log line is about. Without a `package_id=`
/// marker the sentinel `unknown` unit, with no target; with one, the value
/// up to the ` target=` marker or the closing brace, trimmed, plus the
/// target read separately from the whole line.
pub open spec fn spec_package_context(line: Seq<char>) -> PackageTargetModel {
    match spec_find(line, "package_id="@, 0) {
        None => PackageTargetModel { package_id: "unknown"@, target: None },
        Some(p) => {
            let after = line.subrange(p + "package_id="@.len(), line.len() as int);
            let end = match spec_find(after, " target="@, 0) {
                Some(e) => e,
                None => match sp_find_char(after, '}', 0) {
                    Some(e) => e,
                    None => after.len() as int,
                },
            };
            PackageTargetModel {
                package_id: spec_trim(after.subrange(0, end)),
                target: spec_target_context(line),
            }
        },
    }
}

fn extract_target_context(line: &str) -> (r: Option<String>)
    ensures
        r.deep_view() == spec_target_context(line@),
{
    let n = line.unicode_len();
    let marker = "target=";
    let t = match find_sub(line, marker) {
        None => return None,
        Some(t) => t,
    };
    proof {
        crate::text::lemma_spec_find_some(line@, marker@, 0);
    }
    let after = line.substring_char(t + marker.unicode_len(), n);
    let alen = after.unicode_len();
    if alen > 0 && after.get_char(0) == '"' {
        match find_char_from(after, '"', 1) {
            None => None,
            Some(q) => Some(after.substring_char(1, q).to_owned()),
        }
    } else {
        let mut e: usize = 0;
        while e < alen && !char_at_is_delim(after, e)
            invariant
                alen == after@.len(),
                0 <= e <= alen,
                sp_scan_delim(after@, 0) == sp_scan_delim(after@, e as int),
            decreases alen - e,
        {
            e += 1;
        }
        let v = trim_str(after.substring_char(0, e));
        if v.unicode_len() == 0 {
            None
        } else {
            Some(v)
        }
    }
}

fn char_at_is_delim(s: &str, i: usize) -> (r: bool)
    requires
        i < s@.len(),
    ensures
        r == (s@[i as int] == ' ' || s@[i as int] == '}' || s@[i as int] == ':'),
{
    let c = s.get_char(i);
    c == ' ' || c == '}' || c == ':'
}

/// Reads the package/target context out of a log line; never fails — a
/// line naming no package yields the sentinel `unknown` unit.
pub fn extract_package_context(line: &str) -> (r: PackageTarget)
    ensures
        r@ == spec_package_context(line@),
{
    let n = line.unicode_len();
    let marker = "package_id=";
    let p = match find_sub(line, marker) {
        None => return PackageTarget::unknown(),
        Some(p) => p,
    };
    proof {
        crate::text::lemma_spec_find_some(line@, marker@, 0);
    }
    let after = line.substring_char(p + marker.unicode_len(), n);
    let alen = after.unicode_len();
    let end = match find_sub(after, " target=") {
        Some(e) => e,
        None => match find_char_from(after, '}', 0) {
            Some(e) => e,
            None => alen,
        },
    };
    proof {
        if spec_find(after@, " target="@, 0) is Some {
            crate::text::lemma_spec_find_some(after@, " target="@, 0);
        }
    }
    let package_id = trim_str(after.substring_char(0, end));
    let target = extract_target_context(line);
    PackageTarget { package_id, target }
}

/// One parsed observation: the unit a line is about and its reason.
#[derive(Debug, PartialEq)]
pub struct ParsedRebuildEntry {
    pub package: PackageTarget,
    pub reason: RebuildReason,
}

/// Mathematical model of a `ParsedRebuildEntry`.
pub struct ParsedRebuildEntryModel {
    pub package: PackageTargetModel,
    pub reason: ReasonModel,
}

impl View for ParsedRebuildEntry {
    type V = ParsedRebuildEntryModel;

    open spec fn view(&self) -> ParsedRebuildEntryModel {
        ParsedRebuildEntryModel { package: self.package@, reason: self.reason@ }
    }
}

impl DeepView for ParsedRebuildEntry {
    type V = ParsedRebuildEntryModel;

    open spec fn deep_view(&self) -> ParsedRebuildEntryModel {
        self.view()
    }
}

impl ParsedRebuildEntry {
    /// An entry owning the given unit and reason.
    pub fn new(package: PackageTarget, reason: RebuildReason) -> (r: Self)
        ensures
            r@.package == package@,
            r@.reason == reason@,
    {
        ParsedRebuildEntry { package, reason }
    }
}

/// What one log line contributes to the analysis: absence unless a reason
/// parses, else the reason with the line's package context.
pub open spec fn spec_parse_entry(line: Seq<char>) -> Option<ParsedRebuildEntryModel> {
    match spec_parse_reason(line) {
        None => None,
        Some(reason) => Some(
            ParsedRebuildEntryModel { package: spec_package_context(line), reason },
        ),
    }
}

/// Parses a complete rebuild entry out of one log line.
pub fn parse_rebuild_entry(input: &str) -> (r: Option<ParsedRebuildEntry>)
    ensures
        r.deep_view() == spec_parse_entry(input@),
{
    let reason = match parse_rebuild_reason(input) {
        None => return None,
        Some(reason) => reason,
    };
    let package = extract_package_context(input);
    Some(ParsedRebuildEntry::new(package, reason))
}

} // verus!
