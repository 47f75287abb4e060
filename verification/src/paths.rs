//! The path algebra of the cache: joining a relative component onto a base
//! and taking the parent of a path.  Paths are plain UTF-8 strings with `/`
//! as the separator; no component normalization is performed.

use vstd::prelude::*;

verus! {

/// What joining `rel` onto `base` yields: an absolute `rel` replaces `base`;
/// otherwise the two are glued with exactly one separator between them.
pub open spec fn join_spec(base: Seq<char>, rel: Seq<char>) -> Seq<char> {
    if rel.len() > 0 && rel[0] == '/' {
        rel
    } else if base.len() == 0 {
        rel
    } else if base[base.len() - 1] == '/' {
        base + rel
    } else {
        base + "/"@ + rel
    }
}

/// Join a path component onto a base path.
pub fn join_paths(base: &str, rel: &str) -> (r: String)
    ensures
        r@ == join_spec(base@, rel@),
{
    let rel_len = rel.unicode_len();
    let base_len = base.unicode_len();
    if rel_len > 0 && rel.get_char(0) == '/' {
        String::from_str(rel)
    } else if base_len == 0 {
        String::from_str(rel)
    } else if base.get_char(base_len - 1) == '/' {
        let mut s = String::from_str(base);
        s.append(rel);
        s
    } else {
        let mut s = String::from_str(base);
        s.append("/");
        s.append(rel);
        s
    }
}

/// `s` with any trailing separators removed.
pub open spec fn strip_trailing_slashes(s: Seq<char>) -> Seq<char>
    decreases s.len(),
{
    if s.len() > 0 && s[s.len() - 1] == '/' {
        strip_trailing_slashes(s.drop_last())
    } else {
        s
    }
}

/// The index of the last separator in `s`, or `-1` if there is none.
pub open spec fn last_slash(s: Seq<char>) -> int
    decreases s.len(),
{
    if s.len() == 0 {
        -1
    } else if s[s.len() - 1] == '/' {
        s.len() - 1
    } else {
        last_slash(s.drop_last())
    }
}

/// Whether a path has a parent: everything but the empty path and the root
/// (a run of separators alone) does.
pub open spec fn has_parent(s: Seq<char>) -> bool {
    strip_trailing_slashes(s).len() > 0
}

/// The parent of a path: the final component and the separators directly
/// before it are dropped; a single leading separator is kept, so the parent
/// of `/a` is `/` and the parent of `a` is the empty path.
pub open spec fn parent_of(s: Seq<char>) -> Seq<char> {
    let t = strip_trailing_slashes(s);
    let i = last_slash(t);
    if i == -1 {
        Seq::empty()
    } else {
        let p = strip_trailing_slashes(t.subrange(0, i));
        if p.len() == 0 && t[0] == '/' {
            seq!['/']
        } else {
            p
        }
    }
}

proof fn lemma_strip_prefix(s: Seq<char>, e: int)
    requires
        0 <= e < s.len(),
        s[e] == '/',
        forall|j: int| e < j < s.len() ==> s[j] == '/',
    ensures
        strip_trailing_slashes(s) == strip_trailing_slashes(s.subrange(0, e)),
    decreases s.len() - e,
{
    assert(s.drop_last() =~= s.subrange(0, s.len() - 1));
    if e == s.len() - 1 {
        assert(strip_trailing_slashes(s) == strip_trailing_slashes(s.subrange(0, e)));
    } else {
        lemma_strip_prefix(s.subrange(0, s.len() - 1), e);
        assert(s.subrange(0, s.len() - 1).subrange(0, e) =~= s.subrange(0, e));
    }
}

proof fn lemma_last_slash_prefix(s: Seq<char>, i: int)
    requires
        0 <= i <= s.len(),
        forall|j: int| i <= j < s.len() ==> s[j] != '/',
    ensures
        last_slash(s) == last_slash(s.subrange(0, i)),
    decreases s.len() - i,
{
    assert(s.drop_last() =~= s.subrange(0, s.len() - 1));
    if i == s.len() {
        assert(s.subrange(0, i) =~= s);
    } else {
        lemma_last_slash_prefix(s.subrange(0, s.len() - 1), i);
        assert(s.subrange(0, s.len() - 1).subrange(0, i) =~= s.subrange(0, i));
    }
}

/// The parent of a path, or `None` where the path is empty or the root.
pub fn parent_path(p: &str) -> (r: Option<String>)
    ensures
        match r {
            Some(s) => has_parent(p@) && s@ == parent_of(p@),
            None => !has_parent(p@),
        },
{
    let n = p.unicode_len();
    // Drop trailing separators.
    let mut e: usize = n;
    while e > 0 && p.get_char(e - 1) == '/'
        invariant
            n == p@.len(),
            e <= n,
            forall|j: int| e <= j < n ==> p@[j] == '/',
        decreases e,
    {
        e -= 1;
    }
    proof {
        if e < n {
            lemma_strip_prefix(p@, e as int);
        } else {
            assert(p@.subrange(0, n as int) =~= p@);
        }
        assert(strip_trailing_slashes(p@) == strip_trailing_slashes(p@.subrange(0, e as int)));
        if e > 0 {
            assert(p@.subrange(0, e as int)[e - 1] != '/');
            assert(strip_trailing_slashes(p@.subrange(0, e as int)) == p@.subrange(0, e as int));
        }
    }
    if e == 0 {
        proof {
            assert(p@.subrange(0, 0) =~= Seq::<char>::empty());
        }
        return None;
    }
    let ghost t = p@.subrange(0, e as int);
    // Find the last separator before `e`.
    let mut i: usize = e;
    while i > 0 && p.get_char(i - 1) != '/'
        invariant
            n == p@.len(),
            i <= e <= n,
            forall|j: int| i <= j < e ==> p@[j] != '/',
        decreases i,
    {
        i -= 1;
    }
    proof {
        lemma_last_slash_prefix(t, i as int);
        assert(t.subrange(0, i as int) =~= p@.subrange(0, i as int));
    }
    if i == 0 {
        proof {
            assert(last_slash(t) == -1);
            assert(parent_of(p@) =~= Seq::<char>::empty());
        }
        let r = String::new();
        return Some(r);
    }
    proof {
        assert(t[i - 1] == '/');
        assert(t.subrange(0, i as int).drop_last() =~= t.subrange(0, i as int - 1));
        assert(last_slash(t.subrange(0, i as int)) == i - 1);
        assert(last_slash(t) == i - 1);
        assert(t.subrange(0, i as int - 1) =~= p@.subrange(0, i as int - 1));
    }
    // Drop the separators directly before the final component.
    let mut e2: usize = i - 1;
    while e2 > 0 && p.get_char(e2 - 1) == '/'
        invariant
            n == p@.len(),
            e2 <= i - 1,
            i <= e,
            e <= n,
            forall|j: int| e2 <= j < i - 1 ==> p@[j] == '/',
        decreases e2,
    {
        e2 -= 1;
    }
    let ghost q = p@.subrange(0, i as int - 1);
    proof {
        if e2 < i - 1 {
            lemma_strip_prefix(q, e2 as int);
            assert(q.subrange(0, e2 as int) =~= p@.subrange(0, e2 as int));
        } else {
            assert(q.subrange(0, i as int - 1) =~= q);
        }
        assert(strip_trailing_slashes(q) == strip_trailing_slashes(p@.subrange(0, e2 as int)));
        if e2 > 0 {
            assert(p@.subrange(0, e2 as int)[e2 - 1] != '/');
            assert(strip_trailing_slashes(p@.subrange(0, e2 as int)) == p@.subrange(0, e2 as int));
        }
    }
    if e2 == 0 {
        proof {
            assert(p@.subrange(0, 0) =~= Seq::<char>::empty());
            assert(strip_trailing_slashes(q).len() == 0);
        }
        if p.get_char(0) == '/' {
            proof {
                reveal_strlit("/");
                assert(parent_of(p@) =~= "/"@);
            }
            return Some(String::from_str("/"));
        } else {
            proof {
                assert(t[0] != '/');
                assert(parent_of(p@) =~= Seq::<char>::empty());
            }
            return Some(String::new());
        }
    }
    let r = p.substring_char(0, e2);
    proof {
        assert(r@ =~= parent_of(p@));
    }
    Some(String::from_str(r))
}

} // verus!
