//! Shared character-level string primitives: substring search, equality,
//! prefix tests and whitespace handling, each with a spec-level counterpart.

use vstd::prelude::*;
use vstd::string::StrSliceExecFns;
use vstd::string::StringExecFns;

verus! {

/// `t` occurs in `s` starting at position `i`.
pub open spec fn tag_at(s: Seq<char>, i: int, t: Seq<char>) -> bool {
    &&& 0 <= i
    &&& i + t.len() <= s.len()
    &&& forall|j: int| 0 <= j < t.len() ==> s[i + j] == t[j]
}

/// Position of the first occurrence of `t` in `s` at or after `from`.
pub open spec fn spec_find(s: Seq<char>, t: Seq<char>, from: int) -> Option<int>
    decreases s.len() - from,
{
    if from < 0 || from + t.len() > s.len() {
        None
    } else if tag_at(s, from, t) {
        Some(from)
    } else {
        spec_find(s, t, from + 1)
    }
}

/// `t` occurs somewhere in `s`.
pub open spec fn contains_sub(s: Seq<char>, t: Seq<char>) -> bool {
    spec_find(s, t, 0) is Some
}

/// A found position is the first: the pattern occurs there and nowhere
/// earlier.
pub proof fn lemma_spec_find_some(s: Seq<char>, t: Seq<char>, from: int)
    requires
        0 <= from,
        spec_find(s, t, from) is Some,
    ensures
        ({
            let i = spec_find(s, t, from)->Some_0;
            &&& from <= i
            &&& tag_at(s, i, t)
            &&& forall|k: int| from <= k < i ==> !tag_at(s, k, t)
        }),
    decreases s.len() - from,
{
    if from < 0 || from + t.len() > s.len() {
    } else if tag_at(s, from, t) {
    } else {
        lemma_spec_find_some(s, t, from + 1);
    }
}

/// When nothing is found, the pattern occurs nowhere at or after `from`.
pub proof fn lemma_spec_find_none(s: Seq<char>, t: Seq<char>, from: int)
    requires
        0 <= from,
        spec_find(s, t, from) is None,
    ensures
        forall|k: int| from <= k ==> !tag_at(s, k, t),
    decreases s.len() - from,
{
    if from + t.len() > s.len() {
        assert forall|k: int| from <= k implies !tag_at(s, k, t) by {}
    } else {
        lemma_spec_find_none(s, t, from + 1);
    }
}

/// Whitespace, for trimming and for splitting a package id from its
/// version suffix.
pub open spec fn is_ws_char(c: char) -> bool {
    c == ' ' || c == '\t' || c == '\n' || c == '\r'
}

/// First position at or after `i` holding a non-whitespace character.
pub open spec fn sp_skip_ws(s: Seq<char>, i: int) -> int
    recommends
        0 <= i <= s.len(),
    decreases s.len() - i,
{
    if i < 0 || i >= s.len() {
        i
    } else if is_ws_char(s[i]) {
        sp_skip_ws(s, i + 1)
    } else {
        i
    }
}

/// Position just after the last non-whitespace character strictly before
/// `e`.
pub open spec fn sp_ws_end(s: Seq<char>, e: int) -> int
    recommends
        e <= s.len(),
    decreases e,
{
    if e <= 0 {
        0
    } else if is_ws_char(s[e - 1]) {
        sp_ws_end(s, e - 1)
    } else {
        e
    }
}

/// `s` without leading and trailing whitespace.
pub open spec fn spec_trim(s: Seq<char>) -> Seq<char> {
    let b = sp_skip_ws(s, 0);
    let e = sp_ws_end(s, s.len() as int);
    if b >= e {
        Seq::empty()
    } else {
        s.subrange(b, e)
    }
}

/// Whether the character at `i` is whitespace.
pub fn char_at_is_ws(s: &str, i: usize) -> (r: bool)
    requires
        i < s@.len(),
    ensures
        r == is_ws_char(s@[i as int]),
{
    let c = s.get_char(i);
    c == ' ' || c == '\t' || c == '\n' || c == '\r'
}

/// Strips leading and trailing whitespace; see [`spec_trim`].
pub fn trim_str(s: &str) -> (r: String)
    ensures
        r@ == spec_trim(s@),
{
    let n = s.unicode_len();
    let mut e: usize = n;
    while e > 0 && char_at_is_ws(s, e - 1)
        invariant
            n == s@.len(),
            0 <= e <= n,
            sp_ws_end(s@, n as int) == sp_ws_end(s@, e as int),
        decreases e,
    {
        e -= 1;
    }
    let mut b: usize = 0;
    while b < n && char_at_is_ws(s, b)
        invariant
            n == s@.len(),
            0 <= b <= n,
            sp_skip_ws(s@, 0) == sp_skip_ws(s@, b as int),
        decreases n - b,
    {
        b += 1;
    }
    if b >= e {
        String::new()
    } else {
        s.substring_char(b, e).to_owned()
    }
}

/// Position of the last occurrence of `c` in `s` strictly before `before`.
pub open spec fn spec_rfind_char(s: Seq<char>, c: char, before: int) -> Option<int>
    recommends
        before <= s.len(),
    decreases before,
{
    if before <= 0 {
        None
    } else if s[before - 1] == c {
        Some(before - 1)
    } else {
        spec_rfind_char(s, c, before - 1)
    }
}

/// Position of the last occurrence of `c` in `s` strictly before `before`.
pub fn rfind_char(s: &str, c: char, before: usize) -> (r: Option<usize>)
    requires
        before <= s@.len(),
    ensures
        match r {
            Some(i) => spec_rfind_char(s@, c, before as int) == Some(i as int) && i < before,
            None => spec_rfind_char(s@, c, before as int) is None,
        },
{
    let mut i: usize = before;
    while i > 0
        invariant
            before <= s@.len(),
            0 <= i <= before,
            spec_rfind_char(s@, c, before as int) == spec_rfind_char(s@, c, i as int),
        decreases i,
    {
        if s.get_char(i - 1) == c {
            return Some(i - 1);
        }
        i -= 1;
    }
    None
}

/// Compares two string slices; equality of the views.
pub fn str_eq(a: &str, b: &str) -> (r: bool)
    ensures
        r == (a@ == b@),
{
    let alen = a.unicode_len();
    let blen = b.unicode_len();
    if alen != blen {
        assert(a@ != b@) by {
            assert(a@.len() != b@.len());
        }
        return false;
    }
    let mut i: usize = 0;
    while i < alen
        invariant
            alen == a@.len(),
            alen == b@.len(),
            0 <= i <= alen,
            forall|j: int| 0 <= j < i ==> a@[j] == b@[j],
        decreases alen - i,
    {
        if a.get_char(i) != b.get_char(i) {
            assert(a@ != b@);
            return false;
        }
        i += 1;
    }
    proof {
        assert(a@ =~= b@);
    }
    true
}

/// Whether `t` occurs in `s` starting at character position `i`.
pub fn tag_matches_at(s: &str, i: usize, t: &str) -> (r: bool)
    requires
        i <= s@.len(),
    ensures
        r == tag_at(s@, i as int, t@),
{
    let slen = s.unicode_len();
    let tlen = t.unicode_len();
    if tlen > slen - i {
        return false;
    }
    let mut j: usize = 0;
    while j < tlen
        invariant
            slen == s@.len(),
            tlen == t@.len(),
            i + tlen <= slen,
            0 <= j <= tlen,
            forall|k: int| 0 <= k < j ==> s@[i + k] == t@[k],
        decreases tlen - j,
    {
        if s.get_char(i + j) != t.get_char(j) {
            return false;
        }
        j += 1;
    }
    true
}

/// Position of the first occurrence of `t` in `s` at or after `from`.
pub fn find_sub_from(s: &str, t: &str, from: usize) -> (r: Option<usize>)
    requires
        from <= s@.len(),
    ensures
        match r {
            Some(i) => spec_find(s@, t@, from as int) == Some(i as int),
            None => spec_find(s@, t@, from as int) is None,
        },
{
    let slen = s.unicode_len();
    let tlen = t.unicode_len();
    if tlen > slen - from {
        return None;
    }
    let mut i: usize = from;
    while i <= slen - tlen
        invariant
            slen == s@.len(),
            tlen == t@.len(),
            tlen <= slen,
            from <= i <= slen,
            spec_find(s@, t@, from as int) == spec_find(s@, t@, i as int),
        decreases slen - i,
    {
        if tag_matches_at(s, i, t) {
            return Some(i);
        }
        i += 1;
    }
    None
}

/// Position of the first occurrence of `t` anywhere in `s`.
pub fn find_sub(s: &str, t: &str) -> (r: Option<usize>)
    ensures
        match r {
            Some(i) => spec_find(s@, t@, 0) == Some(i as int),
            None => spec_find(s@, t@, 0) is None,
        },
{
    find_sub_from(s, t, 0)
}

/// Whether `t` occurs anywhere in `s`.
pub fn contains_str(s: &str, t: &str) -> (r: bool)
    ensures
        r == contains_sub(s@, t@),
{
    find_sub(s, t).is_some()
}

/// The character for one decimal digit.
pub open spec fn spec_digit_char(d: int) -> char
    recommends
        0 <= d < 10,
{
    if d == 0 {
        '0'
    } else if d == 1 {
        '1'
    } else if d == 2 {
        '2'
    } else if d == 3 {
        '3'
    } else if d == 4 {
        '4'
    } else if d == 5 {
        '5'
    } else if d == 6 {
        '6'
    } else if d == 7 {
        '7'
    } else if d == 8 {
        '8'
    } else {
        '9'
    }
}

/// The decimal rendering of a non-negative number, most significant digit
/// first, without leading zeros (a single `0` for zero).
pub open spec fn spec_dec_digits(n: int) -> Seq<char>
    recommends
        0 <= n,
    decreases n,
{
    if n < 10 {
        seq![spec_digit_char(n)]
    } else {
        spec_dec_digits(n / 10).push(spec_digit_char(n % 10))
    }
}

fn digit_str(d: usize) -> (r: String)
    requires
        d < 10,
    ensures
        r@ =~= seq![spec_digit_char(d as int)],
{
    proof {
        reveal_strlit("0");
        reveal_strlit("1");
        reveal_strlit("2");
        reveal_strlit("3");
        reveal_strlit("4");
        reveal_strlit("5");
        reveal_strlit("6");
        reveal_strlit("7");
        reveal_strlit("8");
        reveal_strlit("9");
    }
    if d == 0 {
        String::from_str("0")
    } else if d == 1 {
        String::from_str("1")
    } else if d == 2 {
        String::from_str("2")
    } else if d == 3 {
        String::from_str("3")
    } else if d == 4 {
        String::from_str("4")
    } else if d == 5 {
        String::from_str("5")
    } else if d == 6 {
        String::from_str("6")
    } else if d == 7 {
        String::from_str("7")
    } else if d == 8 {
        String::from_str("8")
    } else {
        String::from_str("9")
    }
}

/// Renders a number in decimal; see [`spec_dec_digits`].
pub fn usize_to_string(n: usize) -> (r: String)
    ensures
        r@ == spec_dec_digits(n as int),
    decreases n,
{
    if n < 10 {
        digit_str(n)
    } else {
        let mut r = usize_to_string(n / 10);
        let d = digit_str(n % 10);
        r.append(d.as_str());
        proof {
            assert(r@ =~= spec_dec_digits(n as int));
        }
        r
    }
}

/// The first `k` pieces joined by single spaces.
pub open spec fn spec_join_space(v: Seq<Seq<char>>, k: int) -> Seq<char>
    decreases k,
{
    if k <= 0 {
        Seq::empty()
    } else if k == 1 {
        v[0]
    } else {
        spec_join_space(v, k - 1) + " "@ + v[k - 1]
    }
}

/// Joins strings with single spaces; see [`spec_join_space`].
pub fn join_space(v: &Vec<String>) -> (r: String)
    ensures
        r@ == spec_join_space(v.deep_view(), v.len() as int),
{
    let n = v.len();
    if n == 0 {
        return String::new();
    }
    let mut r = v[0].clone();
    let mut i: usize = 1;
    while i < n
        invariant
            n == v.len(),
            1 <= i <= n,
            r@ == spec_join_space(v.deep_view(), i as int),
        decreases n - i,
    {
        r.append(" ");
        r.append(v[i].as_str());
        proof {
            assert(r@ =~= spec_join_space(v.deep_view(), i + 1));
        }
        i += 1;
    }
    r
}

/// `s` begins with `p`.
pub open spec fn spec_starts_with(s: Seq<char>, p: Seq<char>) -> bool {
    tag_at(s, 0, p)
}

/// `s` ends with `p`.
pub open spec fn spec_ends_with(s: Seq<char>, p: Seq<char>) -> bool {
    p.len() <= s.len() && tag_at(s, s.len() - p.len(), p)
}

/// Whether `s` begins with `p`.
pub fn str_starts_with(s: &str, p: &str) -> (r: bool)
    ensures
        r == spec_starts_with(s@, p@),
{
    tag_matches_at(s, 0, p)
}

/// Whether `s` ends with `p`.
pub fn str_ends_with(s: &str, p: &str) -> (r: bool)
    ensures
        r == spec_ends_with(s@, p@),
{
    let n = s.unicode_len();
    let m = p.unicode_len();
    if m > n {
        return false;
    }
    tag_matches_at(s, n - m, p)
}

} // verus!
