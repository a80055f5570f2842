//! Validated names: executable names and slash-delimited cell paths.

use vstd::prelude::*;

verus! {

/// Characters allowed inside a name or a path segment: ASCII letters,
/// digits, `-`, `_` and `.`.
pub open spec fn is_name_char(c: char) -> bool {
    ||| 97 <= c as u32 && c as u32 <= 122  // 'a'..='z'
    ||| 65 <= c as u32 && c as u32 <= 90  // 'A'..='Z'
    ||| 48 <= c as u32 && c as u32 <= 57  // '0'..='9'
    ||| c as u32 == 45  // '-'
    ||| c as u32 == 95  // '_'
    ||| c as u32 == 46  // '.'
}

/// A valid executable name: non-empty, made of name characters only.
pub open spec fn valid_executable_name(s: Seq<char>) -> bool {
    &&& s.len() > 0
    &&& forall|i: int| 0 <= i < s.len() ==> is_name_char(#[trigger] s[i])
}

/// A valid cell path: non-empty segments of name characters, separated by
/// single slashes; no leading or trailing slash.
pub open spec fn valid_cell_path(s: Seq<char>) -> bool {
    &&& s.len() > 0
    &&& forall|i: int| 0 <= i < s.len() ==> is_name_char(#[trigger] s[i]) || s[i] as u32 == 47
    &&& s[0] as u32 != 47
    &&& s[s.len() - 1] as u32 != 47
    &&& forall|i: int| 0 < i < s.len() && (#[trigger] s[i]) as u32 == 47 ==> s[i - 1] as u32 != 47
}

proof fn lemma_name_char_ascii(c: char)
    requires
        is_name_char(c) || c as u32 == 47,
    ensures
        '\0' <= c <= '\u{7f}',
{
}

/// Every character of a valid cell path is ASCII, so byte-indexed slicing
/// of such a path is character-indexed slicing.
pub proof fn lemma_valid_cell_path_ascii(s: Seq<char>)
    requires
        valid_cell_path(s),
    ensures
        vstd::utf8::is_ascii_chars(s),
{
    assert forall|i: int| 0 <= i < s.len() implies '\0' <= #[trigger] s[i] <= '\u{7f}' by {
        lemma_name_char_ascii(s[i]);
    }
}

fn name_char(c: char) -> (r: bool)
    ensures
        r == is_name_char(c),
{
    let u = c as u32;
    (97 <= u && u <= 122) || (65 <= u && u <= 90) || (48 <= u && u <= 57) || u == 45 || u == 95
        || u == 46
}

/// Checks that `s` is a valid executable name.
pub fn check_executable_name(s: &str) -> (r: bool)
    ensures
        r == valid_executable_name(s@),
{
    let n = s.unicode_len();
    if n == 0 {
        return false;
    }
    let mut i: usize = 0;
    while i < n
        invariant
            0 <= i <= n,
            n == s@.len(),
            forall|j: int| 0 <= j < i ==> is_name_char(#[trigger] s@[j]),
        decreases n - i,
    {
        let c = s.get_char(i);
        if !name_char(c) {
            return false;
        }
        i += 1;
    }
    true
}

/// Checks that `s` is a valid cell path.
pub fn check_cell_path(s: &str) -> (r: bool)
    ensures
        r == valid_cell_path(s@),
{
    let n = s.unicode_len();
    if n == 0 {
        return false;
    }
    if s.get_char(0) as u32 == 47 {
        return false;
    }
    if s.get_char(n - 1) as u32 == 47 {
        return false;
    }
    let mut i: usize = 0;
    while i < n
        invariant
            0 <= i <= n,
            n == s@.len(),
            s@[0] as u32 != 47,
            s@[n - 1] as u32 != 47,
            forall|j: int| 0 <= j < i ==> is_name_char(#[trigger] s@[j]) || s@[j] as u32 == 47,
            forall|j: int| 0 < j < i && (#[trigger] s@[j]) as u32 == 47 ==> s@[j - 1] as u32 != 47,
        decreases n - i,
    {
        let c = s.get_char(i);
        if !name_char(c) && c as u32 != 47 {
            return false;
        }
        if c as u32 == 47 && i > 0 {
            if s.get_char(i - 1) as u32 == 47 {
                return false;
            }
        }
        i += 1;
    }
    true
}

/// Index of the last slash in a path, or -1 when there is none.
pub open spec fn last_slash_index(s: Seq<char>) -> int
    decreases s.len(),
{
    if s.len() == 0 {
        -1
    } else if s[s.len() - 1] as u32 == 47 {
        s.len() - 1
    } else {
        last_slash_index(s.drop_last())
    }
}

/// Whether a path names a nested cell, i.e. has a parent path.
pub open spec fn path_has_parent(s: Seq<char>) -> bool {
    last_slash_index(s) >= 0
}

/// The parent path of a nested path: everything before the last slash.
pub open spec fn parent_path(s: Seq<char>) -> Seq<char> {
    s.subrange(0, last_slash_index(s))
}

/// Whether `c` lies strictly below `p` in the tree: `p` followed by a slash
/// is a proper prefix of `c`.
pub open spec fn is_descendant(c: Seq<char>, p: Seq<char>) -> bool {
    &&& c.len() > p.len() + 1
    &&& c.subrange(0, p.len() as int) == p
    &&& c[p.len() as int] as u32 == 47
}

/// Whether `c` is a direct child of `p`: a descendant whose last segment
/// starts right after `p`'s slash.
pub open spec fn is_direct_child(c: Seq<char>, p: Seq<char>) -> bool {
    is_descendant(c, p) && last_slash_index(c) == p.len()
}

/// In a path within this tree, `n` lies below or at `p`.
pub open spec fn in_subtree(n: Seq<char>, p: Seq<char>) -> bool {
    n == p || is_descendant(n, p)
}

/// The last slash really is the last one: no slash follows it.
pub proof fn lemma_last_slash_index(s: Seq<char>)
    ensures
        -1 <= last_slash_index(s) < s.len(),
        last_slash_index(s) >= 0 ==> s[last_slash_index(s)] as u32 == 47,
        forall|i: int| last_slash_index(s) < i < s.len() ==> (#[trigger] s[i]) as u32 != 47,
    decreases s.len(),
{
    if s.len() > 0 && s[s.len() - 1] as u32 != 47 {
        lemma_last_slash_index(s.drop_last());
        assert forall|i: int| last_slash_index(s) < i < s.len() implies (#[trigger] s[i]) as u32
            != 47 by {
            if i < s.len() - 1 {
                assert(s.drop_last()[i] == s[i]);
            }
        }
    }
}

/// Any slash position bounds the last slash from below.
pub proof fn lemma_slash_at_or_before_last(s: Seq<char>, i: int)
    requires
        0 <= i < s.len(),
        s[i] as u32 == 47,
    ensures
        last_slash_index(s) >= i,
    decreases s.len(),
{
    if s.len() > 0 && s[s.len() - 1] as u32 != 47 {
        assert(s.drop_last()[i] == s[i]);
        lemma_slash_at_or_before_last(s.drop_last(), i);
    }
}

/// The parent of a valid nested path is itself a valid path.
pub proof fn lemma_parent_path_valid(s: Seq<char>)
    requires
        valid_cell_path(s),
        path_has_parent(s),
    ensures
        valid_cell_path(parent_path(s)),
        is_direct_child(s, parent_path(s)),
{
    let k = last_slash_index(s);
    lemma_last_slash_index(s);
    let p = parent_path(s);
    assert(s[0] as u32 != 47);
    assert(k > 0);
    assert(s[k - 1] as u32 != 47);
    assert(p.len() == k);
    assert(forall|i: int| 0 <= i < k ==> p[i] == s[i]);
    assert(p[0] as u32 != 47);
    assert(p[p.len() - 1] as u32 != 47);
    assert(s.subrange(0, k) =~= p);
    assert(k < s.len() - 1) by {
        assert(s[s.len() - 1] as u32 != 47 || s.len() - 1 == k);
        assert(s[k] as u32 == 47);
    }
}

/// Being a descendant is transitive, and a descendant of a descendant of
/// `p` is still a descendant of `p`.
pub proof fn lemma_descendant_transitive(c: Seq<char>, m: Seq<char>, p: Seq<char>)
    requires
        is_descendant(c, m),
        in_subtree(m, p),
    ensures
        is_descendant(c, p),
{
    if m != p {
        assert(c.subrange(0, m.len() as int) == m);
        assert(m.subrange(0, p.len() as int) == p);
        assert forall|i: int| 0 <= i < p.len() implies c[i] == p[i] by {
            assert(c.subrange(0, m.len() as int)[i] == c[i]);
            assert(m.subrange(0, p.len() as int)[i] == m[i]);
        }
        assert(c.subrange(0, p.len() as int) =~= p);
        assert(c[p.len() as int] == m[p.len() as int]);
    }
}

/// Finds the last slash of an ASCII string, as an index.
pub fn find_last_slash(s: &str) -> (r: Option<usize>)
    ensures
        match r {
            Some(i) => i == last_slash_index(s@),
            None => last_slash_index(s@) == -1,
        },
{
    let n = s.unicode_len();
    let mut i: usize = n;
    while i > 0
        invariant
            0 <= i <= n,
            n == s@.len(),
            forall|j: int| i <= j < n ==> (#[trigger] s@[j]) as u32 != 47,
        decreases i,
    {
        i -= 1;
        if s.get_char(i) as u32 == 47 {
            proof {
                lemma_slash_at_or_before_last(s@, i as int);
                lemma_last_slash_index(s@);
            }
            return Some(i);
        }
    }
    proof {
        lemma_last_slash_index(s@);
    }
    None
}

/// Whether `c` is a path strictly below `p`.
pub fn check_descendant(c: &str, p: &str) -> (r: bool)
    ensures
        r == is_descendant(c@, p@),
{
    let cn = c.unicode_len();
    let pn = p.unicode_len();
    if cn < 2 || pn >= cn - 1 {
        return false;
    }
    if c.get_char(pn) as u32 != 47 {
        return false;
    }
    let mut i: usize = 0;
    while i < pn
        invariant
            0 <= i <= pn,
            pn == p@.len(),
            cn == c@.len(),
            cn > pn + 1,
            forall|j: int| 0 <= j < i ==> c@[j] == p@[j],
        decreases pn - i,
    {
        if c.get_char(i) != p.get_char(i) {
            assert(c@.subrange(0, p@.len() as int)[i as int] != p@[i as int]);
            return false;
        }
        i += 1;
    }
    proof {
        assert(c@.subrange(0, p@.len() as int) =~= p@);
    }
    true
}

/// Whether `c` is a direct child path of `p`.
pub fn check_direct_child(c: &str, p: &str) -> (r: bool)
    ensures
        r == is_direct_child(c@, p@),
{
    if !check_descendant(c, p) {
        return false;
    }
    match find_last_slash(c) {
        Some(k) => k == p.unicode_len(),
        None => false,
    }
}

} // verus!
