//! Mangled names: the lexical nesting path of an entity, joined with a
//! fixed two-underscore separator. The main result here is that joining is
//! injective over well-formed segments, so two distinct (path, local name)
//! pairs never collide.

use vstd::prelude::*;
use vstd::string::StringExecFns;

verus! {

/// The fixed separator between path segments.
pub open spec fn sep() -> Seq<char> {
    seq!['_', '_']
}

/// A well-formed segment: nonempty, no leading or trailing underscore, and
/// no two adjacent underscores. Under this shape the separator can always
/// be recovered from a joined name.
pub open spec fn wf_seg(s: Seq<char>) -> bool {
    &&& s.len() > 0
    &&& s[0] != '_'
    &&& s[s.len() - 1] != '_'
    &&& forall|i: int| 0 <= i < s.len() - 1 ==> !(((#[trigger] s[i]) == '_') && (s[i + 1] == '_'))
}

/// The segments joined with the separator; a single segment stays bare.
pub open spec fn join_path(segs: Seq<Seq<char>>) -> Seq<char>
    decreases segs.len(),
{
    if segs.len() == 0 {
        Seq::empty()
    } else if segs.len() == 1 {
        segs[0]
    } else {
        segs[0] + sep() + join_path(segs.drop_first())
    }
}

/// The mangled name of an entity named `name` at lexical path `path`:
/// the whole path, then the name, joined. With an empty path this is the
/// bare name.
pub open spec fn mangled_name(path: Seq<Seq<char>>, name: Seq<char>) -> Seq<char> {
    join_path(path.push(name))
}

/// Appending a segment appends a separator and the segment (or is the
/// segment itself when nothing was there).
pub proof fn lemma_join_push(segs: Seq<Seq<char>>, x: Seq<char>)
    ensures
        join_path(segs.push(x)) == if segs.len() == 0 {
            x
        } else {
            join_path(segs) + sep() + x
        },
    decreases segs.len(),
{
    if segs.len() == 0 {
        assert(segs.push(x) =~= seq![x]);
        assert(join_path(seq![x]) == x);
    } else if segs.len() == 1 {
        let p = segs.push(x);
        assert(p.len() == 2);
        assert(p[0] == segs[0]);
        assert(p.drop_first() =~= seq![x]);
        assert(join_path(p) == p[0] + sep() + join_path(seq![x]));
        assert(join_path(seq![x]) == x);
    } else {
        let p = segs.push(x);
        assert(p[0] == segs[0]);
        assert(p.drop_first() =~= segs.drop_first().push(x));
        lemma_join_push(segs.drop_first(), x);
        assert(segs[0] + sep() + (join_path(segs.drop_first()) + sep() + x) =~= (segs[0] + sep()
            + join_path(segs.drop_first())) + sep() + x);
    }
}

/// A join is at least as long as its first segment, and a join of two or
/// more well-formed segments extends strictly past the first separator.
proof fn lemma_join_len(segs: Seq<Seq<char>>)
    requires
        segs.len() >= 1,
        forall|k: int| 0 <= k < segs.len() ==> wf_seg(#[trigger] segs[k]),
    ensures
        join_path(segs).len() >= segs[0].len(),
        segs.len() >= 2 ==> join_path(segs).len() >= segs[0].len() + 3,
    decreases segs.len(),
{
    if segs.len() >= 2 {
        let rest = segs.drop_first();
        assert(forall|k: int| 0 <= k < rest.len() ==> wf_seg(#[trigger] rest[k]));
        lemma_join_len(rest);
    }
}

/// Shape of a join of two or more well-formed segments: it starts with the
/// first segment, the separator sits right after it, and no double
/// underscore occurs earlier.
proof fn lemma_join_head(segs: Seq<Seq<char>>)
    requires
        segs.len() >= 2,
        forall|k: int| 0 <= k < segs.len() ==> wf_seg(#[trigger] segs[k]),
    ensures
        join_path(segs) == segs[0] + sep() + join_path(segs.drop_first()),
        join_path(segs).len() >= segs[0].len() + 3,
        forall|i: int| 0 <= i < segs[0].len() ==> join_path(segs)[i] == segs[0][i],
        join_path(segs)[segs[0].len() as int] == '_',
        join_path(segs)[segs[0].len() as int + 1] == '_',
        forall|i: int|
            0 <= i < segs[0].len() ==> !(((#[trigger] join_path(segs)[i]) == '_') && (join_path(
                segs,
            )[i + 1] == '_')),
{
    lemma_join_len(segs);
    let j = join_path(segs);
    let h = segs[0];
    let p = h.len() as int;
    assert(wf_seg(h));
    assert forall|i: int| 0 <= i < p implies j[i] == h[i] by {
        assert(j[i] == (h + sep())[i]);
    }
    assert(j[p] == '_');
    assert(j[p + 1] == '_');
    assert forall|i: int| 0 <= i < p implies !(((#[trigger] j[i]) == '_') && (j[i + 1] == '_')) by {
        if i < p - 1 {
            assert(j[i] == h[i] && j[i + 1] == h[i + 1]);
        } else {
            assert(j[i] == h[p - 1]);
            assert(h[p - 1] != '_');
        }
    }
}

/// Joining is injective over nonempty sequences of well-formed segments.
proof fn lemma_join_injective(s1: Seq<Seq<char>>, s2: Seq<Seq<char>>)
    requires
        s1.len() >= 1,
        s2.len() >= 1,
        forall|k: int| 0 <= k < s1.len() ==> wf_seg(#[trigger] s1[k]),
        forall|k: int| 0 <= k < s2.len() ==> wf_seg(#[trigger] s2[k]),
        join_path(s1) == join_path(s2),
    ensures
        s1 =~= s2,
    decreases s1.len(),
{
    let j = join_path(s1);
    if s1.len() == 1 && s2.len() == 1 {
        assert(s1 =~= s2);
    } else if s1.len() == 1 {
        // j is the single well-formed segment s1[0], yet as a join of two
        // or more segments it would contain a double underscore.
        lemma_join_head(s2);
        let p2 = s2[0].len() as int;
        assert(wf_seg(s1[0]));
        assert(j.len() >= p2 + 3);
        assert(j[p2] == '_' && j[p2 + 1] == '_');
        assert(!((s1[0][p2] == '_') && (s1[0][p2 + 1] == '_')));
        assert(false);
    } else if s2.len() == 1 {
        lemma_join_head(s1);
        let p1 = s1[0].len() as int;
        assert(wf_seg(s2[0]));
        assert(j.len() >= p1 + 3);
        assert(j[p1] == '_' && j[p1 + 1] == '_');
        assert(!((s2[0][p1] == '_') && (s2[0][p1 + 1] == '_')));
        assert(false);
    } else {
        lemma_join_head(s1);
        lemma_join_head(s2);
        let p1 = s1[0].len() as int;
        let p2 = s2[0].len() as int;
        // The first separator pins down the length of the first segment.
        if p1 < p2 {
            assert(j[p1] == '_' && j[p1 + 1] == '_');
            assert(false);
        }
        if p2 < p1 {
            assert(j[p2] == '_' && j[p2 + 1] == '_');
            assert(false);
        }
        assert(p1 == p2);
        assert forall|i: int| 0 <= i < p1 implies s1[0][i] == s2[0][i] by {
            assert(j[i] == s1[0][i]);
            assert(join_path(s2)[i] == s2[0][i]);
        }
        assert(s1[0] =~= s2[0]);
        let r1 = s1.drop_first();
        let r2 = s2.drop_first();
        assert(join_path(r1) =~= j.skip(p1 + 2)) by {
            assert(j == s1[0] + sep() + join_path(r1));
        }
        assert(join_path(r2) =~= j.skip(p1 + 2)) by {
            assert(j == s2[0] + sep() + join_path(r2));
        }
        assert(forall|k: int| 0 <= k < r1.len() ==> wf_seg(#[trigger] r1[k]));
        assert(forall|k: int| 0 <= k < r2.len() ==> wf_seg(#[trigger] r2[k]));
        lemma_join_injective(r1, r2);
        assert forall|i: int| 0 <= i < s1.len() implies s1[i] == s2[i] by {
            if i > 0 {
                assert(s1[i] == r1[i - 1]);
                assert(s2[i] == r2[i - 1]);
            }
        }
        assert(s1 =~= s2);
    }
}

/// Uniqueness of mangled names: two distinct (lexical path, local name)
/// pairs, all of whose segments are well formed, never mangle to the same
/// name.
pub proof fn lemma_mangled_name_injective(
    path1: Seq<Seq<char>>,
    name1: Seq<char>,
    path2: Seq<Seq<char>>,
    name2: Seq<char>,
)
    requires
        forall|k: int| 0 <= k < path1.len() ==> wf_seg(#[trigger] path1[k]),
        forall|k: int| 0 <= k < path2.len() ==> wf_seg(#[trigger] path2[k]),
        wf_seg(name1),
        wf_seg(name2),
        path1 != path2 || name1 != name2,
    ensures
        mangled_name(path1, name1) != mangled_name(path2, name2),
{
    let s1 = path1.push(name1);
    let s2 = path2.push(name2);
    if mangled_name(path1, name1) == mangled_name(path2, name2) {
        assert(forall|k: int| 0 <= k < s1.len() ==> wf_seg(#[trigger] s1[k]));
        assert(forall|k: int| 0 <= k < s2.len() ==> wf_seg(#[trigger] s2[k]));
        lemma_join_injective(s1, s2);
        assert(path1 =~= s1.drop_last());
        assert(path2 =~= s2.drop_last());
        assert(path1 =~= path2);
        assert(name1 == s1.last());
        assert(name2 == s2.last());
        assert(false);
    }
}

/// An independent copy of a path.
#[verifier::loop_isolation(false)]
pub fn copy_path(path: &Vec<String>) -> (r: Vec<String>)
    ensures
        r.deep_view() == path.deep_view(),
{
    let mut out: Vec<String> = Vec::new();
    let mut i: usize = 0;
    while i < path.len()
        invariant
            i <= path.len(),
            out.deep_view() =~= path.deep_view().take(i as int),
        decreases path.len() - i,
    {
        let ghost before = out.deep_view();
        out.push(path[i].clone());
        proof {
            assert(out.deep_view() =~= before.push(path.deep_view()[i as int]));
            assert(out.deep_view() =~= path.deep_view().take(i + 1));
        }
        i = i + 1;
    }
    proof {
        assert(out.deep_view() =~= path.deep_view());
    }
    out
}

/// The segments joined with `__`, as a `String`.
#[verifier::loop_isolation(false)]
pub fn join_strings(parts: &Vec<String>) -> (r: String)
    ensures
        r@ == join_path(parts.deep_view()),
{
    let ghost views = parts.deep_view();
    if parts.len() == 0 {
        return String::new();
    }
    let mut s: String = parts[0].clone();
    proof {
        assert(views.take(1) =~= seq![views[0]]);
    }
    let mut i: usize = 1;
    while i < parts.len()
        invariant
            1 <= i <= parts.len(),
            s@ == join_path(views.take(i as int)),
        decreases parts.len() - i,
    {
        s.append("__");
        s.append(parts[i].as_str());
        proof {
            reveal_strlit("__");
            lemma_join_push(views.take(i as int), views[i as int]);
            assert(views.take(i + 1) =~= views.take(i as int).push(views[i as int]));
            assert(s@ =~= join_path(views.take(i + 1)));
        }
        i = i + 1;
    }
    proof {
        assert(views.take(parts.len() as int) =~= views);
    }
    s
}

/// The mangled name of `name` at lexical path `path`.
pub fn mangled(path: &Vec<String>, name: &str) -> (r: String)
    ensures
        r@ == mangled_name(path.deep_view(), name@),
{
    if path.len() == 0 {
        let r = name.to_owned();
        proof {
            assert(path.deep_view().push(name@)[0] == name@);
        }
        r
    } else {
        let mut s = join_strings(path);
        s.append("__");
        s.append(name);
        proof {
            reveal_strlit("__");
            lemma_join_push(path.deep_view(), name@);
            assert(s@ =~= mangled_name(path.deep_view(), name@));
        }
        s
    }
}

} // verus!
