//! Translation of route path templates into OpenAPI form.
//!
//! A path template is a string of segments separated by `/`.  A segment
//! that starts with `:` names a path parameter; the documentation form
//! writes the same parameter brace-delimited (`:id` becomes `{id}`).
//! Empty segments are dropped, every other segment passes through
//! unchanged, and each emitted segment is prefixed with `/`.

use vstd::prelude::*;

verus! {

/// The segments of `s`, split on `/`.  Splitting an empty string gives
/// one empty segment; a separator at either end or two adjacent
/// separators give empty segments, which the translation later drops.
pub open spec fn split_segments(s: Seq<char>) -> Seq<Seq<char>>
    decreases s.len(),
{
    if s.len() == 0 {
        seq![Seq::<char>::empty()]
    } else {
        let rest = split_segments(s.skip(1));
        if s[0] == '/' {
            seq![Seq::<char>::empty()] + rest
        } else {
            seq![seq![s[0]] + rest[0]] + rest.skip(1)
        }
    }
}

/// What one segment contributes to the translated path: nothing for an
/// empty segment, `/{rest}` for a parameter segment `:rest`, and `/seg`
/// for a literal segment.
pub open spec fn translate_segment(seg: Seq<char>) -> Seq<char> {
    if seg.len() == 0 {
        Seq::<char>::empty()
    } else if seg[0] == ':' {
        seq!['/', '{'] + seg.skip(1) + seq!['}']
    } else {
        seq!['/'] + seg
    }
}

/// The translated contributions of a list of segments, in order.
pub open spec fn translate_all(segs: Seq<Seq<char>>) -> Seq<char>
    decreases segs.len(),
{
    if segs.len() == 0 {
        Seq::<char>::empty()
    } else {
        translate_segment(segs[0]) + translate_all(segs.skip(1))
    }
}

/// The OpenAPI form of a whole path template.
pub open spec fn translate_path(s: Seq<char>) -> Seq<char> {
    translate_all(split_segments(s))
}

proof fn lemma_split_segments_nonempty(s: Seq<char>)
    ensures
        split_segments(s).len() >= 1,
    decreases s.len(),
{
    if s.len() != 0 {
        lemma_split_segments_nonempty(s.skip(1));
    }
}

/// Splitting from position `i` of a string whose next separator is at
/// `j` yields the segment `[i, j)` followed by the splits of what comes
/// after that separator.
proof fn lemma_split_at_segment(s: Seq<char>, i: int, j: int)
    requires
        0 <= i <= j <= s.len(),
        forall|k: int| i <= k < j ==> s[k] != '/',
        j == s.len() || s[j] == '/',
    ensures
        j == s.len() ==> split_segments(s.skip(i)) == seq![s.subrange(i, j)],
        j < s.len() ==> split_segments(s.skip(i)) == seq![s.subrange(i, j)] + split_segments(
            s.skip(j + 1),
        ),
    decreases j - i,
{
    if i == j {
        if j == s.len() {
            assert(s.skip(i).len() == 0);
            assert(s.subrange(i, j) =~= Seq::<char>::empty());
            assert(split_segments(s.skip(i)) =~~= seq![s.subrange(i, j)]);
        } else {
            assert(s.skip(i)[0] == s[i]);
            assert(s.skip(i).skip(1) =~= s.skip(j + 1));
            assert(s.subrange(i, j) =~= Seq::<char>::empty());
            assert(split_segments(s.skip(i)) =~~= seq![s.subrange(i, j)] + split_segments(
                s.skip(j + 1),
            ));
        }
    } else {
        lemma_split_at_segment(s, i + 1, j);
        lemma_split_segments_nonempty(s.skip(i + 1));
        assert(s.skip(i).len() > 0);
        assert(s.skip(i)[0] == s[i]);
        assert(s.skip(i).skip(1) =~= s.skip(i + 1));
        let rest = split_segments(s.skip(i + 1));
        if j == s.len() {
            assert(rest == seq![s.subrange(i + 1, j)]);
            assert(seq![s[i]] + rest[0] =~= s.subrange(i, j));
            assert(rest.skip(1) =~~= Seq::<Seq<char>>::empty());
            assert(split_segments(s.skip(i)) =~~= seq![s.subrange(i, j)]);
        } else {
            assert(rest == seq![s.subrange(i + 1, j)] + split_segments(s.skip(j + 1)));
            assert(rest[0] == s.subrange(i + 1, j));
            assert(seq![s[i]] + rest[0] =~= s.subrange(i, j));
            assert(rest.skip(1) =~~= split_segments(s.skip(j + 1)));
            assert(split_segments(s.skip(i)) =~~= seq![s.subrange(i, j)] + split_segments(
                s.skip(j + 1),
            ));
        }
    }
}

proof fn lemma_translate_all_cons(seg: Seq<char>, rest: Seq<Seq<char>>)
    ensures
        translate_all(seq![seg] + rest) == translate_segment(seg) + translate_all(rest),
{
    let all = seq![seg] + rest;
    assert(all.len() > 0);
    assert(all[0] == seg);
    assert(all.skip(1) =~~= rest);
}

proof fn lemma_translate_path_of_empty()
    ensures
        translate_path(Seq::<char>::empty()) == Seq::<char>::empty(),
{
    let segs = split_segments(Seq::<char>::empty());
    assert(segs == seq![Seq::<char>::empty()]);
    assert(segs.skip(1) =~~= Seq::<Seq<char>>::empty());
    assert(translate_all(Seq::<Seq<char>>::empty()) == Seq::<char>::empty());
    assert(translate_segment(segs[0]) == Seq::<char>::empty());
    assert(translate_all(segs) == translate_segment(segs[0]) + translate_all(segs.skip(1)));
    assert(translate_all(segs) =~= Seq::<char>::empty());
}

/// Translates a route path template to its OpenAPI form: each
/// colon-prefixed segment becomes a brace-delimited parameter, every
/// other non-empty segment passes through with its `/` prefix, and
/// empty segments are dropped.
pub fn axum_path_str_to_openapi(path: &str) -> (r: String)
    ensures
        r@ == translate_path(path@),
{
    let n: usize = path.unicode_len();
    let mut out: String = String::new();
    let mut i: usize = 0;
    proof {
        assert(path@.skip(0) =~= path@);
    }
    while i < n
        invariant
            n == path@.len(),
            i <= n,
            out@ + translate_all(split_segments(path@.skip(i as int))) == translate_path(path@),
        decreases n - i,
    {
        let ghost s = path@;
        let ghost out0 = out@;
        let c0 = path.get_char(i);
        if c0 == '/' {
            proof {
                assert(s.skip(i as int)[0] == s[i as int]);
                assert(s.skip(i as int).skip(1) =~= s.skip(i as int + 1));
                let rest = split_segments(s.skip(i as int + 1));
                assert(split_segments(s.skip(i as int)) == seq![Seq::<char>::empty()] + rest);
                lemma_translate_all_cons(Seq::<char>::empty(), rest);
                assert(translate_segment(Seq::<char>::empty()) + translate_all(rest)
                    =~= translate_all(rest));
            }
            i = i + 1;
        } else {
            let mut j: usize = i + 1;
            proof {
                assert(forall|k: int| i <= k < i + 1 ==> s[k] != '/');
            }
            while j < n && path.get_char(j) != '/'
                invariant
                    n == path@.len(),
                    i < j <= n,
                    forall|k: int| i <= k < j ==> path@[k] != '/',
                decreases n - j,
            {
                j = j + 1;
            }
            proof {
                lemma_split_at_segment(s, i as int, j as int);
            }
            let ghost seg = s.subrange(i as int, j as int);
            let c = path.get_char(i);
            if c == ':' {
                out.append("/{");
                let mid = path.substring_char(i + 1, j);
                out.append(mid);
                out.append("}");
                proof {
                    reveal_strlit("/{");
                    reveal_strlit("}");
                    assert(seg[0] == ':');
                    assert(mid@ =~= seg.skip(1));
                    assert(out@ =~= out0 + translate_segment(seg));
                }
            } else {
                out.append("/");
                let rest_of_seg = path.substring_char(i, j);
                out.append(rest_of_seg);
                proof {
                    assert(seg[0] != ':');
                    assert(rest_of_seg@ =~= seg);
                    reveal_strlit("/");
                    assert(out@ =~= out0 + translate_segment(seg));
                }
            }
            proof {
                if j < n {
                    // The separator at `j` opens an empty-prefix split that
                    // contributes nothing, so consuming up to `j` keeps the
                    // invariant.
                    let rest = split_segments(s.skip(j as int + 1));
                    lemma_translate_all_cons(seg, rest);
                    assert(s.skip(j as int)[0] == s[j as int]);
                    assert(s.skip(j as int).skip(1) =~= s.skip(j as int + 1));
                    assert(split_segments(s.skip(j as int)) == seq![Seq::<char>::empty()] + rest);
                    lemma_translate_all_cons(Seq::<char>::empty(), rest);
                    assert(translate_segment(Seq::<char>::empty()) + translate_all(rest)
                        =~= translate_all(rest));
                    assert(out0 + (translate_segment(seg) + translate_all(rest)) =~= out@
                        + translate_all(rest));
                } else {
                    lemma_translate_all_cons(seg, Seq::<Seq<char>>::empty());
                    assert(seq![seg] + Seq::<Seq<char>>::empty() =~~= seq![seg]);
                    assert(translate_all(Seq::<Seq<char>>::empty()) == Seq::<char>::empty());
                    assert(s.skip(j as int) =~= Seq::<char>::empty());
                    lemma_translate_path_of_empty();
                    assert(translate_all(split_segments(s.skip(j as int))) == Seq::<char>::empty());
                    assert(out0 + (translate_segment(seg) + Seq::<char>::empty()) =~= out@);
                    assert(out@ + Seq::<char>::empty() =~= out@);
                }
            }
            i = j;
        }
    }
    proof {
        let tail = path@.skip(i as int);
        assert(tail =~= Seq::<char>::empty());
        lemma_translate_path_of_empty();
        assert(translate_all(split_segments(tail)) == Seq::<char>::empty());
        assert(out@ + Seq::<char>::empty() =~= out@);
    }
    out
}

/// The segments joined back into a template, separated by `/`.
pub open spec fn join_segments(segs: Seq<Seq<char>>) -> Seq<char>
    decreases segs.len(),
{
    if segs.len() == 0 {
        Seq::<char>::empty()
    } else if segs.len() == 1 {
        segs[0]
    } else {
        segs[0] + seq!['/'] + join_segments(segs.skip(1))
    }
}

/// Law: for every path template composed of segments none of which
/// contains a separator, the translation emits exactly the per-segment
/// images, in order: each colon-prefixed segment brace-delimited, each
/// other segment untouched behind its `/` prefix.
pub proof fn lemma_translate_joined_segments(segs: Seq<Seq<char>>)
    requires
        segs.len() > 0,
        forall|q: int| 0 <= q < segs.len() ==> !segs[q].contains('/'),
    ensures
        translate_path(join_segments(segs)) == translate_all(segs),
    decreases segs.len(),
{
    let s = join_segments(segs);
    if segs.len() == 1 {
        assert(s == segs[0]);
        assert(forall|k: int| 0 <= k < s.len() ==> s[k] != '/') by {
            assert(forall|k: int| 0 <= k < s.len() && s[k] == '/' ==> segs[0].contains('/'));
        }
        lemma_split_at_segment(s, 0, s.len() as int);
        assert(s.skip(0) =~= s);
        assert(s.subrange(0, s.len() as int) =~= s);
        assert(split_segments(s) == seq![segs[0]]);
        lemma_translate_all_cons(segs[0], Seq::<Seq<char>>::empty());
        assert(seq![segs[0]] + Seq::<Seq<char>>::empty() =~~= seq![segs[0]]);
        assert(segs.skip(1) =~~= Seq::<Seq<char>>::empty());
        assert(translate_all(split_segments(s)) =~= translate_all(segs));
    } else {
        let rest = segs.skip(1);
        let head = segs[0];
        let jlen = head.len() as int;
        assert(s == head + seq!['/'] + join_segments(rest));
        assert(forall|k: int| 0 <= k < jlen ==> s[k] != '/') by {
            assert(forall|k: int| 0 <= k < jlen ==> s[k] == head[k]);
            assert(forall|k: int| 0 <= k < jlen && head[k] == '/' ==> head.contains('/'));
        }
        assert(s[jlen] == '/');
        assert(jlen < s.len());
        lemma_split_at_segment(s, 0, jlen);
        assert(s.skip(0) =~= s);
        assert(s.subrange(0, jlen) =~= head);
        assert(s.skip(jlen + 1) =~= join_segments(rest));
        assert(split_segments(s) == seq![head] + split_segments(join_segments(rest)));
        assert(forall|q: int| 0 <= q < rest.len() ==> !rest[q].contains('/'));
        lemma_translate_joined_segments(rest);
        lemma_translate_all_cons(head, split_segments(join_segments(rest)));
        lemma_translate_all_cons(head, rest);
        assert(seq![head] + rest =~~= segs);
    }
}

} // verus!
