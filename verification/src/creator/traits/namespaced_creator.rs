//! Optional C++ namespaces: a scope-separated string such as `a::b::c`
//! drives both the namespace block in generated text and the directory
//! nesting `a/b/c` under the base source directory.

use vstd::prelude::*;

use crate::creator::Creator;
use crate::opt_str_view;

verus! {

/// The namespace string with every scope separator `::` replaced, greedily
/// from the left, by a single `/`.
pub open spec fn ns_to_path(s: Seq<char>) -> Seq<char>
    decreases s.len(),
{
    if s.len() >= 2 && s[0] == ':' && s[1] == ':' {
        seq!['/'] + ns_to_path(s.skip(2))
    } else if s.len() >= 1 {
        seq![s[0]] + ns_to_path(s.skip(1))
    } else {
        Seq::<char>::empty()
    }
}

/// The namespace string split, greedily from the left, on the scope
/// separator `::`; always at least one segment.
pub open spec fn split_ns(s: Seq<char>) -> Seq<Seq<char>>
    decreases s.len(),
{
    if s.len() >= 2 && s[0] == ':' && s[1] == ':' {
        seq![Seq::<char>::empty()] + split_ns(s.skip(2))
    } else if s.len() >= 1 {
        let rest = split_ns(s.skip(1));
        seq![seq![s[0]] + rest[0]] + rest.skip(1)
    } else {
        seq![Seq::<char>::empty()]
    }
}

/// How many scope separators `::` the namespace string holds, counted
/// greedily from the left.
pub open spec fn sep_count(s: Seq<char>) -> nat
    decreases s.len(),
{
    if s.len() >= 2 && s[0] == ':' && s[1] == ':' {
        1 + sep_count(s.skip(2))
    } else if s.len() >= 1 {
        sep_count(s.skip(1))
    } else {
        0
    }
}

/// Path segments joined by `/`.
pub open spec fn join_path(segs: Seq<Seq<char>>) -> Seq<char>
    decreases segs.len(),
{
    if segs.len() == 0 {
        Seq::<char>::empty()
    } else if segs.len() == 1 {
        segs[0]
    } else {
        segs[0] + seq!['/'] + join_path(segs.skip(1))
    }
}

/// The directory of a creator: the base source directory, with the
/// namespace's path nested under it when a namespace is present.
pub open spec fn dir_view_of(ns: Option<Seq<char>>) -> Seq<char> {
    match ns {
        Some(n) => "./src/"@ + ns_to_path(n),
        None => "./src"@,
    }
}

/// Splitting yields exactly one segment more than there are separators.
pub proof fn lemma_split_count(s: Seq<char>)
    ensures
        split_ns(s).len() == sep_count(s) + 1,
    decreases s.len(),
{
    if s.len() >= 2 && s[0] == ':' && s[1] == ':' {
        lemma_split_count(s.skip(2));
    } else if s.len() >= 1 {
        lemma_split_count(s.skip(1));
    }
}

/// The namespace path is exactly the split segments joined by `/`.
pub proof fn lemma_join_split(s: Seq<char>)
    ensures
        join_path(split_ns(s)) == ns_to_path(s),
    decreases s.len(),
{
    if s.len() >= 2 && s[0] == ':' && s[1] == ':' {
        lemma_join_split(s.skip(2));
        lemma_split_count(s.skip(2));
        let segs = split_ns(s);
        assert(segs.skip(1) =~~= split_ns(s.skip(2)));
        assert(join_path(segs) =~= ns_to_path(s));
    } else if s.len() >= 1 {
        lemma_join_split(s.skip(1));
        lemma_split_count(s.skip(1));
        let rest = split_ns(s.skip(1));
        let segs = split_ns(s);
        if rest.len() == 1 {
            assert(join_path(segs) =~= ns_to_path(s));
        } else {
            assert(segs.skip(1) =~~= rest.skip(1));
            assert(join_path(segs) =~= ns_to_path(s));
        }
    }
}

/// If the namespace itself holds no `/`, none of its segments does either.
pub proof fn lemma_segments_slash_free(s: Seq<char>)
    requires
        forall|i: int| 0 <= i < s.len() ==> s[i] != '/',
    ensures
        forall|j: int, t: int|
            0 <= j < split_ns(s).len() && 0 <= t < split_ns(s)[j].len()
                ==> split_ns(s)[j][t] != '/',
    decreases s.len(),
{
    if s.len() >= 2 && s[0] == ':' && s[1] == ':' {
        lemma_segments_slash_free(s.skip(2));
        assert forall|j: int, t: int|
            0 <= j < split_ns(s).len() && 0 <= t < split_ns(s)[j].len()
                implies split_ns(s)[j][t] != '/' by {
            if j >= 1 {
                assert(split_ns(s)[j] == split_ns(s.skip(2))[j - 1]);
            }
        }
    } else if s.len() >= 1 {
        lemma_segments_slash_free(s.skip(1));
        let rest = split_ns(s.skip(1));
        assert forall|j: int, t: int|
            0 <= j < split_ns(s).len() && 0 <= t < split_ns(s)[j].len()
                implies split_ns(s)[j][t] != '/' by {
            if j == 0 {
                assert(split_ns(s)[0] == seq![s[0]] + rest[0]);
                if t >= 1 {
                    assert((seq![s[0]] + rest[0])[t] == rest[0][t - 1]);
                }
            } else {
                assert(split_ns(s)[j] == rest.skip(1)[j - 1]);
                assert(rest.skip(1)[j - 1] == rest[j]);
            }
        }
    }
}

/// For a namespace with k scope-separator occurrences, the derived directory
/// is the base source directory followed by the k+1 split segments in order,
/// each separator replaced by a single `/`; when the namespace holds no `/`
/// of its own the directory therefore nests exactly k+1 levels under the
/// base.
pub proof fn lemma_directory_nesting(ns: Seq<char>)
    ensures
        split_ns(ns).len() == sep_count(ns) + 1,
        dir_view_of(Some(ns)) == "./src/"@ + join_path(split_ns(ns)),
{
    lemma_split_count(ns);
    lemma_join_split(ns);
}

/// Replaces every scope separator `::`, greedily from the left, by `/`.
pub fn scope_sep_to_slash(s: &str) -> (r: String)
    ensures
        r@ == ns_to_path(s@),
{
    let n: usize = s.unicode_len();
    let mut r = String::new();
    let mut i: usize = 0;
    proof {
        assert(s@.skip(0) =~= s@);
        assert(r@ + ns_to_path(s@) =~= ns_to_path(s@));
    }
    while i < n
        invariant
            i <= n,
            n == s@.len(),
            r@ + ns_to_path(s@.skip(i as int)) == ns_to_path(s@),
        decreases n - i,
    {
        let c = s.get_char(i);
        if c == ':' && i + 1 < n && s.get_char(i + 1) == ':' {
            r.append("/");
            proof {
                reveal_strlit("/");
                assert("/"@ =~= seq!['/']);
                assert(s@.skip(i as int).skip(2) =~= s@.skip(i + 2));
                assert(ns_to_path(s@.skip(i as int)) == seq!['/'] + ns_to_path(s@.skip(i + 2)));
                assert(r@ + ns_to_path(s@.skip(i + 2)) =~= ns_to_path(s@));
            }
            i = i + 2;
        } else {
            let piece = s.substring_char(i, i + 1);
            r.append(piece);
            proof {
                assert(piece@ =~= seq![s@[i as int]]);
                assert(s@.skip(i as int).skip(1) =~= s@.skip(i + 1));
                assert(ns_to_path(s@.skip(i as int)) == seq![s@[i as int]] + ns_to_path(s@.skip(i + 1)));
                assert(r@ + ns_to_path(s@.skip(i + 1)) =~= ns_to_path(s@));
            }
            i = i + 1;
        }
    }
    proof {
        assert(s@.skip(n as int) =~= Seq::<char>::empty());
        assert(r@ =~= ns_to_path(s@));
    }
    r
}

/// A creator that may carry a C++ namespace.
pub trait NamespacedCreator: Creator {
    /// The namespace the creator carries, if any.
    spec fn namespace_view(&self) -> Option<Seq<char>>;

    /// Returns the creator with the given namespace set.
    fn with_namespace(self, namespace: &str) -> (r: Self)
        ensures
            r.namespace_view() == Some(namespace@),
            r.name_view() == self.name_view(),
    ;

    /// The namespace the creator carries, if any.
    fn namespace(&self) -> (r: &Option<String>)
        ensures
            opt_str_view(r) == self.namespace_view(),
    ;

    /// The namespace as a nested path: each scope separator becomes `/`.
    fn namespace_path(&self) -> (r: Option<String>)
        ensures
            (match (self.namespace_view(), r) {
                (Some(ns), Some(p)) => p@ == ns_to_path(ns),
                (None, None) => true,
                _ => false,
            }),
    {
        match self.namespace() {
            Some(ns) => Some(scope_sep_to_slash(ns.as_str())),
            None => None,
        }
    }
}

} // verus!
