//! The rebuild causality graph.
//!
//! An append-only, deduplicating store of rebuild observations, plus the
//! analysis that groups them into root causes and the cascades each one
//! triggered. Edges are implicit: a node whose reason names dependency `P`
//! was caused by a root-cause node whose package normalizes to `P`.

use vstd::prelude::*;
use vstd::string::StrSliceExecFns;
use vstd::string::StringExecFns;

use crate::reason::RebuildReason;
use crate::reason::ReasonModel;
use crate::reason::spec_dedup_key;
use crate::reason::spec_is_cascade;
use crate::reason::reason_dedup_key;
use crate::text::str_eq;
use crate::text::is_ws_char;
use crate::text::sp_skip_ws;
use crate::text::char_at_is_ws;

verus! {

/// Replaces every `-` with `_`, so that package names that differ only in
/// hyphen/underscore spelling compare equal.
pub open spec fn spec_normalize(s: Seq<char>) -> Seq<char> {
    s.map_values(|c: char| if c == '-' { '_' } else { c })
}

/// Normalization is idempotent: normalizing a second time changes nothing.
pub proof fn lemma_normalize_idempotent(s: Seq<char>)
    ensures
        spec_normalize(spec_normalize(s)) == spec_normalize(s),
{
    assert(spec_normalize(spec_normalize(s)) =~= spec_normalize(s));
}

/// Normalization identifies hyphen/underscore spellings: two names equal
/// except that `-` and `_` are interchanged normalize to the same key.
pub proof fn lemma_normalize_identifies_spellings(s: Seq<char>, t: Seq<char>)
    requires
        s.len() == t.len(),
        forall|i: int|
            0 <= i < s.len() ==> (s[i] == t[i] || ((s[i] == '-' || s[i] == '_') && (t[i] == '-'
                || t[i] == '_'))),
    ensures
        spec_normalize(s) == spec_normalize(t),
{
    assert(spec_normalize(s) =~= spec_normalize(t));
}

/// First position at or after `i` holding a whitespace character, or the
/// end of the string.
pub open spec fn sp_token_end(s: Seq<char>, i: int) -> int
    recommends
        0 <= i <= s.len(),
    decreases s.len() - i,
{
    if i < 0 || i >= s.len() {
        i
    } else if is_ws_char(s[i]) {
        i
    } else {
        sp_token_end(s, i + 1)
    }
}

/// The first whitespace-separated token of `s` — a package id such as
/// `libz-sys v1.1.23` reduced to `libz-sys`. A string with no token at all
/// is kept unchanged.
pub open spec fn spec_first_token(s: Seq<char>) -> Seq<char> {
    let b = sp_skip_ws(s, 0);
    if b >= s.len() {
        s
    } else {
        s.subrange(b, sp_token_end(s, b))
    }
}

/// The key under which a package id is grouped: its name without the
/// version suffix, hyphens and underscores identified.
pub open spec fn spec_pkg_key(package_id: Seq<char>) -> Seq<char> {
    spec_normalize(spec_first_token(package_id))
}

/// Identifies a compilation unit: a package id and, for some log lines,
/// the target within the package.
#[derive(Debug, PartialEq)]
pub struct PackageTarget {
    pub package_id: String,
    pub target: Option<String>,
}

/// Mathematical model of a `PackageTarget`.
pub struct PackageTargetModel {
    pub package_id: Seq<char>,
    pub target: Option<Seq<char>>,
}

impl View for PackageTarget {
    type V = PackageTargetModel;

    open spec fn view(&self) -> PackageTargetModel {
        PackageTargetModel { package_id: self.package_id@, target: self.target.deep_view() }
    }
}

impl DeepView for PackageTarget {
    type V = PackageTargetModel;

    open spec fn deep_view(&self) -> PackageTargetModel {
        self.view()
    }
}

impl Clone for PackageTarget {
    /// Cloning keeps the model of the value.
    fn clone(&self) -> (res: Self)
        ensures
            res@ == self@,
    {
        PackageTarget {
            package_id: self.package_id.clone(),
            target: match &self.target {
                None => None,
                Some(t) => Some(t.clone()),
            },
        }
    }
}

impl PackageTarget {
    /// A unit with the given package id and optional target.
    pub fn new(package_id: String, target: Option<String>) -> (r: Self)
        ensures
            r@.package_id == package_id@,
            r@.target == target.deep_view(),
    {
        PackageTarget { package_id, target }
    }

    /// The sentinel unit used when a log line names no package.
    pub fn unknown() -> (r: Self)
        ensures
            r@.package_id == "unknown"@,
            r@.target is None,
    {
        PackageTarget { package_id: String::from_str("unknown"), target: None }
    }

    /// Display form: the package name without its version suffix and, when
    /// present, the target in brackets.
    pub fn display_string(&self) -> (r: String)
        ensures
            r@ == spec_display_package(self@),
    {
        let name = extract_package_name(self.package_id.as_str());
        match &self.target {
            None => name,
            Some(t) => {
                let mut r = name;
                r.append(" [");
                r.append(t.as_str());
                r.append("]");
                r
            },
        }
    }
}

/// Display form of a unit; see [`PackageTarget::display_string`].
pub open spec fn spec_display_package(p: PackageTargetModel) -> Seq<char> {
    match p.target {
        None => spec_first_token(p.package_id),
        Some(t) => spec_first_token(p.package_id) + " ["@ + t + "]"@,
    }
}

/// A node in the graph: one package with its direct rebuild reason.
#[derive(Debug)]
pub struct RebuildNode {
    pub package: PackageTarget,
    pub reason: RebuildReason,
}

/// Mathematical model of a `RebuildNode`.
pub struct RebuildNodeModel {
    pub package: PackageTargetModel,
    pub reason: ReasonModel,
}

impl View for RebuildNode {
    type V = RebuildNodeModel;

    open spec fn view(&self) -> RebuildNodeModel {
        RebuildNodeModel { package: self.package@, reason: self.reason@ }
    }
}

impl DeepView for RebuildNode {
    type V = RebuildNodeModel;

    open spec fn deep_view(&self) -> RebuildNodeModel {
        self.view()
    }
}

impl Clone for RebuildNode {
    /// Cloning keeps the model of the value.
    fn clone(&self) -> (res: Self)
        ensures
            res@ == self@,
    {
        RebuildNode { package: self.package.clone(), reason: self.reason.clone() }
    }
}

impl RebuildNode {
    /// A node owning the given unit and reason.
    pub fn new(package: PackageTarget, reason: RebuildReason) -> (r: Self)
        ensures
            r@.package == package@,
            r@.reason == reason@,
    {
        RebuildNode { package, reason }
    }

    /// A root cause is a reason not itself caused by another unit's
    /// rebuild.
    pub fn is_root_cause(&self) -> (r: bool)
        ensures
            r == !spec_is_cascade(self@.reason),
    {
        !matches!(self.reason, RebuildReason::UnitDependencyInfoChanged { .. })
    }
}

/// The pair under which a node is deduplicated: the package key and the
/// reason key.
pub open spec fn spec_node_key(n: RebuildNodeModel) -> (Seq<char>, Seq<char>) {
    (spec_pkg_key(n.package.package_id), spec_dedup_key(n.reason))
}

/// Some stored node already carries this key.
pub open spec fn spec_has_key(nodes: Seq<RebuildNodeModel>, key: (Seq<char>, Seq<char>)) -> bool {
    exists|i: int| 0 <= i < nodes.len() && spec_node_key(#[trigger] nodes[i]) == key
}

/// What adding a node does to the store: nothing when its key was already
/// seen, an append otherwise.
pub open spec fn spec_add_node(
    nodes: Seq<RebuildNodeModel>,
    n: RebuildNodeModel,
) -> Seq<RebuildNodeModel> {
    if spec_has_key(nodes, spec_node_key(n)) {
        nodes
    } else {
        nodes.push(n)
    }
}

/// No two stored nodes share a key.
pub open spec fn spec_distinct_keys(nodes: Seq<RebuildNodeModel>) -> bool {
    forall|i: int, j: int|
        0 <= i < j < nodes.len() ==> spec_node_key(#[trigger] nodes[i]) != spec_node_key(
            #[trigger] nodes[j],
        )
}

/// Deduplication law: adding a second node with the same normalized
/// package and the same reason key leaves the store unchanged — at most
/// one node per distinct logical rebuild trigger.
pub proof fn lemma_add_node_dedups(
    nodes: Seq<RebuildNodeModel>,
    n1: RebuildNodeModel,
    n2: RebuildNodeModel,
)
    requires
        spec_node_key(n1) == spec_node_key(n2),
    ensures
        spec_add_node(spec_add_node(nodes, n1), n2) == spec_add_node(nodes, n1),
{
    let once = spec_add_node(nodes, n1);
    if spec_has_key(nodes, spec_node_key(n1)) {
        assert(spec_has_key(once, spec_node_key(n2)));
    } else {
        assert(once == nodes.push(n1));
        assert(spec_node_key(once[nodes.len() as int]) == spec_node_key(n2));
        assert(spec_has_key(once, spec_node_key(n2)));
    }
}

/// Directed graph of rebuild causality: an insertion-ordered store of
/// deduplicated nodes. All derived questions — root causes, cascades,
/// chains — are answered by scans over the store.
#[derive(Debug)]
pub struct RebuildGraph {
    nodes: Vec<RebuildNode>,
}

impl View for RebuildGraph {
    type V = Seq<RebuildNodeModel>;

    closed spec fn view(&self) -> Seq<RebuildNodeModel> {
        self.nodes.deep_view()
    }
}

/// Extracts the package name from a package id such as `libz-sys v1.1.23`.
pub fn extract_package_name(package_id: &str) -> (r: String)
    ensures
        r@ == spec_first_token(package_id@),
{
    let n = package_id.unicode_len();
    let mut b: usize = 0;
    while b < n && char_at_is_ws(package_id, b)
        invariant
            n == package_id@.len(),
            0 <= b <= n,
            sp_skip_ws(package_id@, 0) == sp_skip_ws(package_id@, b as int),
        decreases n - b,
    {
        b += 1;
    }
    if b >= n {
        return package_id.to_owned();
    }
    let mut e: usize = b;
    while e < n && !char_at_is_ws(package_id, e)
        invariant
            n == package_id@.len(),
            b <= e <= n,
            sp_token_end(package_id@, b as int) == sp_token_end(package_id@, e as int),
        decreases n - e,
    {
        e += 1;
    }
    package_id.substring_char(b, e).to_owned()
}

/// Rewrites `-` to `_`; see [`spec_normalize`].
pub fn normalize_crate_name(name: &str) -> (r: String)
    ensures
        r@ == spec_normalize(name@),
{
    let n = name.unicode_len();
    let mut r = String::new();
    let mut i: usize = 0;
    while i < n
        invariant
            n == name@.len(),
            0 <= i <= n,
            r@ == spec_normalize(name@.subrange(0, i as int)),
        decreases n - i,
    {
        if name.get_char(i) == '-' {
            r.append("_");
            proof {
                reveal_strlit("_");
            }
        } else {
            let piece = name.substring_char(i, i + 1);
            r.append(piece);
        }
        proof {
            assert(r@ =~= spec_normalize(name@.subrange(0, i + 1)));
        }
        i += 1;
    }
    proof {
        assert(name@.subrange(0, n as int) =~= name@);
    }
    r
}

/// The grouping key of a package id; see [`spec_pkg_key`].
pub fn package_key(package_id: &str) -> (r: String)
    ensures
        r@ == spec_pkg_key(package_id@),
{
    let name = extract_package_name(package_id);
    normalize_crate_name(name.as_str())
}

impl Default for RebuildGraph {
    /// The default graph is empty.
    fn default() -> (r: Self)
        ensures
            r@ =~= Seq::<RebuildNodeModel>::empty(),
            spec_distinct_keys(r@),
    {
        RebuildGraph::new()
    }
}

impl RebuildGraph {
    /// An empty graph.
    pub fn new() -> (r: Self)
        ensures
            r@ =~= Seq::<RebuildNodeModel>::empty(),
            spec_distinct_keys(r@),
    {
        RebuildGraph { nodes: Vec::new() }
    }

    /// Adds a node, deduplicating by package key and reason key: the index
    /// of the stored node when its key is new, absence otherwise.
    pub fn add_node(&mut self, node: RebuildNode) -> (r: Option<usize>)
        requires
            spec_distinct_keys(old(self)@),
        ensures
            final(self)@ == spec_add_node(old(self)@, node@),
            spec_distinct_keys(final(self)@),
            match r {
                Some(idx) => !spec_has_key(old(self)@, spec_node_key(node@)) && idx
                    == old(self)@.len() && final(self)@ == old(self)@.push(node@),
                None => spec_has_key(old(self)@, spec_node_key(node@)) && final(self)@ == old(
                    self,
                )@,
            },
    {
        let key_pkg = package_key(node.package.package_id.as_str());
        let key_reason = reason_dedup_key(&node.reason);
        let n = self.nodes.len();
        let mut i: usize = 0;
        while i < n
            invariant
                n == self@.len(),
                0 <= i <= n,
                spec_distinct_keys(self@),
                key_pkg@ == spec_pkg_key(node@.package.package_id),
                key_reason@ == spec_dedup_key(node@.reason),
                forall|k: int|
                    0 <= k < i ==> spec_node_key(#[trigger] self@[k]) != spec_node_key(node@),
            decreases n - i,
        {
            let stored_pkg = package_key(self.nodes[i].package.package_id.as_str());
            let same_pkg = str_eq(stored_pkg.as_str(), key_pkg.as_str());
            if same_pkg {
                let stored_reason = reason_dedup_key(&self.nodes[i].reason);
                if str_eq(stored_reason.as_str(), key_reason.as_str()) {
                    assert(spec_node_key(self@[i as int]) == spec_node_key(node@));
                    return None;
                }
            }
            i += 1;
        }
        assert(!spec_has_key(self@, spec_node_key(node@)));
        let idx = self.nodes.len();
        let ghost before = self@;
        self.nodes.push(node);
        proof {
            assert(self@ =~= before.push(node@));
            assert forall|a: int, b: int| 0 <= a < b < self@.len() implies spec_node_key(
                #[trigger] self@[a],
            ) != spec_node_key(#[trigger] self@[b]) by {
                if b == self@.len() - 1 {
                    assert(!spec_has_key(before, spec_node_key(node@)));
                    assert(spec_node_key(before[a]) != spec_node_key(node@));
                }
            }
        }
        Some(idx)
    }

    /// Whether no node has been stored.
    pub fn is_empty(&self) -> (r: bool)
        ensures
            r == (self@.len() == 0),
    {
        self.nodes.len() == 0
    }

    /// The number of stored nodes.
    pub fn len(&self) -> (r: usize)
        ensures
            r == self@.len(),
    {
        self.nodes.len()
    }

    /// All stored nodes, in insertion order.
    pub fn nodes(&self) -> (r: &Vec<RebuildNode>)
        ensures
            r.deep_view() == self@,
    {
        &self.nodes
    }

    /// All root causes, in insertion order.
    pub fn root_causes(&self) -> (r: Vec<&RebuildNode>)
        ensures
            r.deep_view() == spec_root_causes(self@),
    {
        let n = self.nodes.len();
        let mut acc: Vec<&RebuildNode> = Vec::new();
        let mut i: usize = 0;
        while i < n
            invariant
                n == self@.len(),
                0 <= i <= n,
                acc.deep_view() == spec_roots_prefix(self@, i as int),
            decreases n - i,
        {
            if self.nodes[i].is_root_cause() {
                acc.push(&self.nodes[i]);
                proof {
                    assert(acc.deep_view() =~= spec_roots_prefix(self@, i + 1));
                }
            }
            i += 1;
        }
        acc
    }

    /// The chain from the first stored root cause for a node's named
    /// dependency down to the node itself; the node alone when it is a
    /// root cause or no stored root cause names its dependency.
    pub fn causal_chain(&self, node_idx: usize) -> (r: Vec<&RebuildNode>)
        requires
            node_idx < self@.len(),
        ensures
            r.deep_view() == spec_causal_chain(self@, node_idx as int),
    {
        let node = &self.nodes[node_idx];
        if let RebuildReason::UnitDependencyInfoChanged { name, .. } = &node.reason {
            let key = normalize_crate_name(name.as_str());
            let n = self.nodes.len();
            let mut j: usize = 0;
            while j < n
                invariant
                    n == self@.len(),
                    0 <= j <= n,
                    node_idx < n,
                    node@ == self@[node_idx as int],
                    spec_is_cascade(self@[node_idx as int].reason),
                    key@ == spec_normalize(spec_dep_name(self@[node_idx as int].reason)),
                    spec_first_root_for(self@, key@, 0) == spec_first_root_for(
                        self@,
                        key@,
                        j as int,
                    ),
                decreases n - j,
            {
                if self.nodes[j].is_root_cause() {
                    let stored = package_key(self.nodes[j].package.package_id.as_str());
                    if str_eq(stored.as_str(), key.as_str()) {
                        assert(spec_first_root_for(self@, key@, j as int) == Some(j as int));
                        let mut chain: Vec<&RebuildNode> = Vec::new();
                        chain.push(&self.nodes[j]);
                        chain.push(node);
                        proof {
                            assert(chain.deep_view() =~= spec_causal_chain(
                                self@,
                                node_idx as int,
                            ));
                        }
                        return chain;
                    }
                }
                j += 1;
            }
            let mut chain: Vec<&RebuildNode> = Vec::new();
            chain.push(node);
            proof {
                assert(chain.deep_view() =~= spec_causal_chain(self@, node_idx as int));
            }
            chain
        } else {
            let mut chain: Vec<&RebuildNode> = Vec::new();
            chain.push(node);
            proof {
                assert(chain.deep_view() =~= spec_causal_chain(self@, node_idx as int));
            }
            chain
        }
    }

    /// Whether some stored node shows that `dep_name`, after
    /// normalization, was rebuilt because of `root_name` through a chain
    /// of at most `fuel` dependency links.
    fn is_transitively_affected(&self, dep_name: &str, root_name: &str, fuel: usize) -> (r: bool)
        ensures
            r == spec_trans_affected(self@, dep_name@, root_name@, fuel as nat),
        decreases fuel,
    {
        if fuel == 0 {
            return false;
        }
        let dep_key = normalize_crate_name(dep_name);
        let root_key = normalize_crate_name(root_name);
        let n = self.nodes.len();
        let mut i: usize = 0;
        while i < n
            invariant
                fuel >= 1,
                n == self@.len(),
                0 <= i <= n,
                dep_key@ == spec_normalize(dep_name@),
                root_key@ == spec_normalize(root_name@),
                forall|k: int|
                    0 <= k < i ==> !spec_links_toward(
                        self@,
                        #[trigger] self@[k],
                        dep_name@,
                        root_name@,
                        (fuel - 1) as nat,
                    ),
            decreases n - i,
        {
            let node = &self.nodes[i];
            let node_pkg = package_key(node.package.package_id.as_str());
            if str_eq(node_pkg.as_str(), dep_key.as_str()) {
                if let RebuildReason::UnitDependencyInfoChanged { name, .. } = &node.reason {
                    let name_key = normalize_crate_name(name.as_str());
                    if str_eq(name_key.as_str(), root_key.as_str()) {
                        assert(spec_links_toward(
                            self@,
                            self@[i as int],
                            dep_name@,
                            root_name@,
                            (fuel - 1) as nat,
                        ));
                        return true;
                    }
                    if self.is_transitively_affected(name.as_str(), root_name, fuel - 1) {
                        assert(spec_links_toward(
                            self@,
                            self@[i as int],
                            dep_name@,
                            root_name@,
                            (fuel - 1) as nat,
                        ));
                        return true;
                    }
                }
            }
            i += 1;
        }
        false
    }

    /// All nodes affected by the root cause stored at `root_idx`: the
    /// cascades naming its package, directly or through further cascades.
    fn find_affected_packages(&self, root_idx: usize) -> (r: Vec<RebuildNode>)
        requires
            root_idx < self@.len(),
        ensures
            r.deep_view() == spec_affected(self@, root_idx as int),
    {
        let root_name = extract_package_name(self.nodes[root_idx].package.package_id.as_str());
        let root_key = normalize_crate_name(root_name.as_str());
        let n = self.nodes.len();
        let fuel = n;
        let mut acc: Vec<RebuildNode> = Vec::new();
        let mut i: usize = 0;
        while i < n
            invariant
                n == self@.len(),
                root_idx < n,
                fuel == n,
                0 <= i <= n,
                root_name@ == spec_first_token(self@[root_idx as int].package.package_id),
                root_key@ == spec_pkg_key(self@[root_idx as int].package.package_id),
                acc.deep_view() == spec_affected_prefix(self@, root_idx as int, i as int),
            decreases n - i,
        {
            if i != root_idx {
                let node = &self.nodes[i];
                if let RebuildReason::UnitDependencyInfoChanged { name, .. } = &node.reason {
                    let name_key = normalize_crate_name(name.as_str());
                    let hit = str_eq(name_key.as_str(), root_key.as_str())
                        || self.is_transitively_affected(name.as_str(), root_name.as_str(), fuel);
                    if hit {
                        acc.push(node.clone());
                        proof {
                            assert(acc.deep_view() =~= spec_affected_prefix(
                                self@,
                                root_idx as int,
                                i + 1,
                            ));
                        }
                    }
                }
            }
            i += 1;
        }
        acc
    }

    /// Every root cause, in insertion order, paired with everything it
    /// transitively caused.
    pub fn root_cause_chains(&self) -> (r: Vec<RootCauseChain>)
        ensures
            r.deep_view() == spec_chains(self@),
    {
        let n = self.nodes.len();
        let mut acc: Vec<RootCauseChain> = Vec::new();
        let mut i: usize = 0;
        while i < n
            invariant
                n == self@.len(),
                0 <= i <= n,
                acc.deep_view() == spec_chains_prefix(self@, i as int),
            decreases n - i,
        {
            if self.nodes[i].is_root_cause() {
                let affected = self.find_affected_packages(i);
                acc.push(
                    RootCauseChain {
                        root_cause: self.nodes[i].clone(),
                        affected_packages: affected,
                    },
                );
                proof {
                    assert(acc.deep_view() =~= spec_chains_prefix(self@, i + 1));
                }
            }
            i += 1;
        }
        acc
    }
}

/// The root causes among the first `k` nodes, in order.
pub open spec fn spec_roots_prefix(nodes: Seq<RebuildNodeModel>, k: int) -> Seq<RebuildNodeModel>
    decreases k,
{
    if k <= 0 {
        Seq::empty()
    } else {
        let pre = spec_roots_prefix(nodes, k - 1);
        if !spec_is_cascade(nodes[k - 1].reason) {
            pre.push(nodes[k - 1])
        } else {
            pre
        }
    }
}

/// All root causes, in insertion order.
pub open spec fn spec_root_causes(nodes: Seq<RebuildNodeModel>) -> Seq<RebuildNodeModel> {
    spec_roots_prefix(nodes, nodes.len() as int)
}

/// The first stored root cause whose package key equals `key`.
pub open spec fn spec_first_root_for(
    nodes: Seq<RebuildNodeModel>,
    key: Seq<char>,
    from: int,
) -> Option<int>
    recommends
        0 <= from,
    decreases nodes.len() - from,
{
    if from < 0 || from >= nodes.len() {
        None
    } else if !spec_is_cascade(nodes[from].reason) && spec_pkg_key(nodes[from].package.package_id)
        == key {
        Some(from)
    } else {
        spec_first_root_for(nodes, key, from + 1)
    }
}

/// The chain rendered for one node: its first-stored root cause (when its
/// reason names a dependency with a stored root cause) followed by the
/// node, else the node alone. First-inserted wins among same-named root
/// causes — a documented approximation, not a graph search.
pub open spec fn spec_causal_chain(nodes: Seq<RebuildNodeModel>, idx: int) -> Seq<
    RebuildNodeModel,
> {
    if spec_is_cascade(nodes[idx].reason) {
        match spec_first_root_for(nodes, spec_normalize(spec_dep_name(nodes[idx].reason)), 0) {
            Some(j) => seq![nodes[j], nodes[idx]],
            None => seq![nodes[idx]],
        }
    } else {
        seq![nodes[idx]]
    }
}

/// The dependency a cascade reason names.
pub open spec fn spec_dep_name(r: ReasonModel) -> Seq<char> {
    match r {
        ReasonModel::UnitDependencyInfoChanged { name, .. } => name,
        _ => Seq::empty(),
    }
}

/// One stored node makes a link from `dep` toward `root`: its package key
/// is `dep` normalized, and the dependency its own reason names either is
/// `root` or reaches `root` through at most `fuel` further links.
pub open spec fn spec_links_toward(
    nodes: Seq<RebuildNodeModel>,
    n: RebuildNodeModel,
    dep: Seq<char>,
    root: Seq<char>,
    fuel: nat,
) -> bool
    decreases fuel, 1int,
{
    &&& spec_pkg_key(n.package.package_id) == spec_normalize(dep)
    &&& n.reason is UnitDependencyInfoChanged
    &&& (spec_normalize(spec_dep_name(n.reason)) == spec_normalize(root) || spec_trans_affected(
        nodes,
        spec_dep_name(n.reason),
        root,
        fuel,
    ))
}

/// `dep` was rebuilt because of `root`, shown by a chain of at most `fuel`
/// dependency links through the stored nodes. The analysis passes the node
/// count as fuel, which loses nothing: [`lemma_node_count_fuel_suffices`]
/// proves that any chain at all can be shortened to one within that bound.
pub open spec fn spec_trans_affected(
    nodes: Seq<RebuildNodeModel>,
    dep: Seq<char>,
    root: Seq<char>,
    fuel: nat,
) -> bool
    decreases fuel, 0int,
{
    &&& fuel > 0
    &&& exists|i: int|
        0 <= i < nodes.len() && spec_links_toward(
            nodes,
            #[trigger] nodes[i],
            dep,
            root,
            (fuel - 1) as nat,
        )
}

/// Position `j` of an index chain points at a stored cascade node.
pub open spec fn chain_ok_at(nodes: Seq<RebuildNodeModel>, c: Seq<int>, j: int) -> bool {
    &&& 0 <= c[j] < nodes.len()
    &&& nodes[c[j]].reason is UnitDependencyInfoChanged
}

/// The dependency named at position `j` is the package of position `j+1`.
pub open spec fn chain_link_at(nodes: Seq<RebuildNodeModel>, c: Seq<int>, j: int) -> bool {
    spec_pkg_key(nodes[c[j + 1]].package.package_id) == spec_normalize(
        spec_dep_name(nodes[c[j]].reason),
    )
}

/// A chain of stored-node indices carrying `dep` to `root`: the first
/// node's package key is `dep` normalized, each node's named dependency is
/// the next node's package, and the last node names `root`.
pub open spec fn spec_is_chain(
    nodes: Seq<RebuildNodeModel>,
    dep: Seq<char>,
    root: Seq<char>,
    c: Seq<int>,
) -> bool {
    &&& c.len() >= 1
    &&& forall|j: int| 0 <= j < c.len() ==> #[trigger] chain_ok_at(nodes, c, j)
    &&& spec_pkg_key(nodes[c[0]].package.package_id) == spec_normalize(dep)
    &&& forall|j: int| 0 <= j < c.len() - 1 ==> #[trigger] chain_link_at(nodes, c, j)
    &&& spec_normalize(spec_dep_name(nodes[c[c.len() - 1]].reason)) == spec_normalize(root)
}

/// Whatever a fuel-bounded search shows is shown by an explicit chain of
/// at most that many nodes.
proof fn lemma_trans_to_chain(nodes: Seq<RebuildNodeModel>, dep: Seq<char>, root: Seq<char>, f: nat)
    requires
        spec_trans_affected(nodes, dep, root, f),
    ensures
        exists|c: Seq<int>| #[trigger] spec_is_chain(nodes, dep, root, c) && c.len() <= f,
    decreases f,
{
    let i = choose|i: int|
        0 <= i < nodes.len() && spec_links_toward(nodes, #[trigger] nodes[i], dep, root, (f
            - 1) as nat);
    if spec_normalize(spec_dep_name(nodes[i].reason)) == spec_normalize(root) {
        let c = seq![i];
        assert(chain_ok_at(nodes, c, 0));
        assert(spec_is_chain(nodes, dep, root, c));
    } else {
        let dep2 = spec_dep_name(nodes[i].reason);
        lemma_trans_to_chain(nodes, dep2, root, (f - 1) as nat);
        let c0 = choose|c0: Seq<int>| #[trigger] spec_is_chain(nodes, dep2, root, c0) && c0.len()
            <= f - 1;
        let c = seq![i] + c0;
        assert forall|j: int| 0 <= j < c.len() implies #[trigger] chain_ok_at(nodes, c, j) by {
            if j == 0 {
                assert(c[0] == i);
            } else {
                assert(chain_ok_at(nodes, c0, j - 1));
                assert(c[j] == c0[j - 1]);
            }
        }
        assert forall|j: int| 0 <= j < c.len() - 1 implies #[trigger] chain_link_at(
            nodes,
            c,
            j,
        ) by {
            if j == 0 {
                assert(c[0] == i && c[1] == c0[0]);
                assert(chain_ok_at(nodes, c0, 0));
            } else {
                assert(chain_link_at(nodes, c0, j - 1));
                assert(c[j] == c0[j - 1] && c[j + 1] == c0[j]);
            }
        }
        assert(c[c.len() - 1] == c0[c0.len() - 1]);
        assert(spec_is_chain(nodes, dep, root, c));
    }
}

/// An explicit chain is found by a search with one unit of fuel per chain
/// node.
proof fn lemma_chain_to_trans(
    nodes: Seq<RebuildNodeModel>,
    dep: Seq<char>,
    root: Seq<char>,
    c: Seq<int>,
)
    requires
        spec_is_chain(nodes, dep, root, c),
    ensures
        spec_trans_affected(nodes, dep, root, c.len() as nat),
    decreases c.len(),
{
    let i = c[0];
    assert(chain_ok_at(nodes, c, 0));
    if c.len() == 1 {
        assert(spec_links_toward(nodes, nodes[i], dep, root, (c.len() - 1) as nat));
    } else {
        let dep2 = spec_dep_name(nodes[i].reason);
        let c1 = c.subrange(1, c.len() as int);
        assert forall|j: int| 0 <= j < c1.len() implies #[trigger] chain_ok_at(nodes, c1, j) by {
            assert(chain_ok_at(nodes, c, j + 1));
            assert(c1[j] == c[j + 1]);
        }
        assert forall|j: int| 0 <= j < c1.len() - 1 implies #[trigger] chain_link_at(
            nodes,
            c1,
            j,
        ) by {
            assert(chain_link_at(nodes, c, j + 1));
            assert(c1[j] == c[j + 1] && c1[j + 1] == c[j + 2]);
        }
        assert(chain_link_at(nodes, c, 0));
        assert(c1[0] == c[1]);
        assert(c1[c1.len() - 1] == c[c.len() - 1]);
        assert(spec_is_chain(nodes, dep2, root, c1));
        lemma_chain_to_trans(nodes, dep2, root, c1);
        assert(spec_links_toward(nodes, nodes[i], dep, root, (c.len() - 1) as nat)) by {
            lemma_trans_affected_monotone(nodes, dep2, root, c1.len() as nat, (c.len() - 1) as nat);
        }
    }
}

/// Cutting a chain between two positions with the same package key leaves
/// a shorter chain.
proof fn lemma_chain_splice(
    nodes: Seq<RebuildNodeModel>,
    dep: Seq<char>,
    root: Seq<char>,
    c: Seq<int>,
    j1: int,
    j2: int,
)
    requires
        spec_is_chain(nodes, dep, root, c),
        0 <= j1 < j2 < c.len(),
        spec_pkg_key(nodes[c[j1]].package.package_id) == spec_pkg_key(
            nodes[c[j2]].package.package_id,
        ),
    ensures
        spec_is_chain(nodes, dep, root, c.subrange(0, j1) + c.subrange(j2, c.len() as int)),
        (c.subrange(0, j1) + c.subrange(j2, c.len() as int)).len() < c.len(),
{
    let d = c.subrange(0, j1) + c.subrange(j2, c.len() as int);
    assert(d.len() == c.len() - (j2 - j1));
    assert forall|j: int| 0 <= j < d.len() implies #[trigger] chain_ok_at(nodes, d, j) by {
        if j < j1 {
            assert(chain_ok_at(nodes, c, j));
            assert(d[j] == c[j]);
        } else {
            assert(chain_ok_at(nodes, c, j - j1 + j2));
            assert(d[j] == c[j - j1 + j2]);
        }
    }
    assert(d[0] == (if j1 > 0 {
        c[0]
    } else {
        c[j2]
    }));
    assert forall|j: int| 0 <= j < d.len() - 1 implies #[trigger] chain_link_at(nodes, d, j) by {
        if j + 1 < j1 {
            assert(chain_link_at(nodes, c, j));
            assert(d[j] == c[j] && d[j + 1] == c[j + 1]);
        } else if j + 1 == j1 {
            assert(chain_link_at(nodes, c, j));
            assert(d[j] == c[j] && d[j + 1] == c[j2]);
        } else {
            assert(chain_link_at(nodes, c, j - j1 + j2));
            assert(d[j] == c[j - j1 + j2] && d[j + 1] == c[j - j1 + j2 + 1]);
        }
    }
    assert(d[d.len() - 1] == c[c.len() - 1]);
}

/// Every chain can be shortened to one whose package keys are pairwise
/// distinct — and whose node indices then are too.
proof fn lemma_chain_distinct(
    nodes: Seq<RebuildNodeModel>,
    dep: Seq<char>,
    root: Seq<char>,
    c: Seq<int>,
)
    requires
        spec_is_chain(nodes, dep, root, c),
    ensures
        exists|d: Seq<int>|
            #[trigger] spec_is_chain(nodes, dep, root, d) && d.len() <= c.len()
                && d.no_duplicates(),
    decreases c.len(),
{
    if exists|j1: int, j2: int|
        0 <= j1 < j2 < c.len() && spec_pkg_key(#[trigger] nodes[c[j1]].package.package_id)
            == spec_pkg_key(#[trigger] nodes[c[j2]].package.package_id) {
        let (j1, j2) = choose|j1: int, j2: int|
            0 <= j1 < j2 < c.len() && spec_pkg_key(#[trigger] nodes[c[j1]].package.package_id)
                == spec_pkg_key(#[trigger] nodes[c[j2]].package.package_id);
        lemma_chain_splice(nodes, dep, root, c, j1, j2);
        lemma_chain_distinct(nodes, dep, root, c.subrange(0, j1) + c.subrange(j2, c.len() as int));
    } else {
        assert forall|a: int, b: int| 0 <= a < b < c.len() implies c[a] != c[b] by {
            assert(spec_pkg_key(nodes[c[a]].package.package_id) != spec_pkg_key(
                nodes[c[b]].package.package_id,
            ));
        }
        assert(c.no_duplicates());
        assert(spec_is_chain(nodes, dep, root, c) && c.len() <= c.len() && c.no_duplicates());
    }
}

/// A chain without repeated indices never has more nodes than the store.
proof fn lemma_distinct_chain_len(nodes: Seq<RebuildNodeModel>, c: Seq<int>)
    requires
        c.no_duplicates(),
        forall|j: int| 0 <= j < c.len() ==> 0 <= #[trigger] c[j] < nodes.len(),
    ensures
        c.len() <= nodes.len(),
{
    broadcast use vstd::seq_lib::seq_to_set_is_finite;

    c.unique_seq_to_set();
    let range = vstd::set_lib::set_int_range(0, nodes.len() as int);
    vstd::set_lib::lemma_int_range(0, nodes.len() as int);
    assert forall|x: int| c.to_set().contains(x) implies range.contains(x) by {
        let j = choose|j: int| 0 <= j < c.len() && c[j] == x;
    }
    vstd::set_lib::lemma_len_subset(c.to_set(), range);
}

/// The node count is always fuel enough: a dependency shown to reach a
/// root cause through any number of links is shown through at most one
/// link per stored node. The analysis therefore misses no chain by passing
/// the node count as fuel.
pub proof fn lemma_node_count_fuel_suffices(
    nodes: Seq<RebuildNodeModel>,
    dep: Seq<char>,
    root: Seq<char>,
    f: nat,
)
    requires
        spec_trans_affected(nodes, dep, root, f),
    ensures
        spec_trans_affected(nodes, dep, root, nodes.len() as nat),
{
    lemma_trans_to_chain(nodes, dep, root, f);
    let c = choose|c: Seq<int>| #[trigger] spec_is_chain(nodes, dep, root, c) && c.len() <= f;
    lemma_chain_distinct(nodes, dep, root, c);
    let d = choose|d: Seq<int>|
        #[trigger] spec_is_chain(nodes, dep, root, d) && d.len() <= c.len() && d.no_duplicates();
    assert forall|j: int| 0 <= j < d.len() implies 0 <= #[trigger] d[j] < nodes.len() by {
        assert(chain_ok_at(nodes, d, j));
    }
    lemma_distinct_chain_len(nodes, d);
    lemma_chain_to_trans(nodes, dep, root, d);
    lemma_trans_affected_monotone(nodes, dep, root, d.len() as nat, nodes.len() as nat);
}

/// More fuel never loses a chain: what a short chain shows, any longer
/// bound shows too.
pub proof fn lemma_trans_affected_monotone(
    nodes: Seq<RebuildNodeModel>,
    dep: Seq<char>,
    root: Seq<char>,
    f1: nat,
    f2: nat,
)
    requires
        f1 <= f2,
        spec_trans_affected(nodes, dep, root, f1),
    ensures
        spec_trans_affected(nodes, dep, root, f2),
    decreases f1,
{
    let i = choose|i: int|
        0 <= i < nodes.len() && spec_links_toward(nodes, #[trigger] nodes[i], dep, root, (f1
            - 1) as nat);
    if spec_normalize(spec_dep_name(nodes[i].reason)) != spec_normalize(root) {
        lemma_trans_affected_monotone(
            nodes,
            spec_dep_name(nodes[i].reason),
            root,
            (f1 - 1) as nat,
            (f2 - 1) as nat,
        );
    }
    assert(spec_links_toward(nodes, nodes[i], dep, root, (f2 - 1) as nat));
}

/// A node is affected by a root cause when its reason names a dependency
/// that is the root cause's package or reaches it transitively.
pub open spec fn spec_node_affected_by(
    nodes: Seq<RebuildNodeModel>,
    n: RebuildNodeModel,
    root: RebuildNodeModel,
) -> bool {
    &&& n.reason is UnitDependencyInfoChanged
    &&& (spec_normalize(spec_dep_name(n.reason)) == spec_pkg_key(root.package.package_id)
        || spec_trans_affected(
        nodes,
        spec_dep_name(n.reason),
        spec_first_token(root.package.package_id),
        nodes.len() as nat,
    ))
}

/// The nodes among the first `k` that are affected by the root cause at
/// `root_idx`, in order; the root cause itself is never listed.
pub open spec fn spec_affected_prefix(
    nodes: Seq<RebuildNodeModel>,
    root_idx: int,
    k: int,
) -> Seq<RebuildNodeModel>
    decreases k,
{
    if k <= 0 {
        Seq::empty()
    } else {
        let pre = spec_affected_prefix(nodes, root_idx, k - 1);
        if k - 1 != root_idx && spec_node_affected_by(nodes, nodes[k - 1], nodes[root_idx]) {
            pre.push(nodes[k - 1])
        } else {
            pre
        }
    }
}

/// All nodes affected by the root cause at `root_idx`, in insertion order.
/// Chains are computed independently per root cause: a node reachable from
/// more than one root cause is listed under each of them.
pub open spec fn spec_affected(nodes: Seq<RebuildNodeModel>, root_idx: int) -> Seq<
    RebuildNodeModel,
> {
    spec_affected_prefix(nodes, root_idx, nodes.len() as int)
}

/// A root cause together with every node it transitively caused.
#[derive(Debug)]
pub struct RootCauseChain {
    pub root_cause: RebuildNode,
    pub affected_packages: Vec<RebuildNode>,
}

/// Mathematical model of a `RootCauseChain`.
pub struct RootCauseChainModel {
    pub root_cause: RebuildNodeModel,
    pub affected_packages: Seq<RebuildNodeModel>,
}

impl View for RootCauseChain {
    type V = RootCauseChainModel;

    open spec fn view(&self) -> RootCauseChainModel {
        RootCauseChainModel {
            root_cause: self.root_cause@,
            affected_packages: self.affected_packages.deep_view(),
        }
    }
}

impl DeepView for RootCauseChain {
    type V = RootCauseChainModel;

    open spec fn deep_view(&self) -> RootCauseChainModel {
        self.view()
    }
}

impl RootCauseChain {
    /// Total rebuilds this chain accounts for: the root cause plus every
    /// affected package.
    pub fn total_rebuilds(&self) -> (r: usize)
        requires
            self@.affected_packages.len() < usize::MAX,
        ensures
            r == 1 + self@.affected_packages.len(),
    {
        1 + self.affected_packages.len()
    }
}

/// The chains of the first `k` nodes' root causes, in order.
pub open spec fn spec_chains_prefix(nodes: Seq<RebuildNodeModel>, k: int) -> Seq<
    RootCauseChainModel,
>
    decreases k,
{
    if k <= 0 {
        Seq::empty()
    } else {
        let pre = spec_chains_prefix(nodes, k - 1);
        if !spec_is_cascade(nodes[k - 1].reason) {
            pre.push(
                RootCauseChainModel {
                    root_cause: nodes[k - 1],
                    affected_packages: spec_affected(nodes, k - 1),
                },
            )
        } else {
            pre
        }
    }
}

/// One chain per root cause, in insertion order.
pub open spec fn spec_chains(nodes: Seq<RebuildNodeModel>) -> Seq<RootCauseChainModel> {
    spec_chains_prefix(nodes, nodes.len() as int)
}

proof fn lemma_chains_align_prefix(nodes: Seq<RebuildNodeModel>, k: int)
    ensures
        spec_chains_prefix(nodes, k).len() == spec_roots_prefix(nodes, k).len(),
        forall|i: int|
            0 <= i < spec_chains_prefix(nodes, k).len() ==> #[trigger] spec_chains_prefix(
                nodes,
                k,
            )[i].root_cause == spec_roots_prefix(nodes, k)[i],
    decreases k,
{
    if k > 0 {
        lemma_chains_align_prefix(nodes, k - 1);
    }
}

/// The chains answer exactly the root-causes question: one chain per root
/// cause, in the same order, each headed by that root cause.
pub proof fn lemma_chains_align_with_roots(nodes: Seq<RebuildNodeModel>)
    ensures
        spec_chains(nodes).len() == spec_root_causes(nodes).len(),
        forall|i: int|
            0 <= i < spec_chains(nodes).len() ==> #[trigger] spec_chains(nodes)[i].root_cause
                == spec_root_causes(nodes)[i],
{
    lemma_chains_align_prefix(nodes, nodes.len() as int);
}

} // verus!
