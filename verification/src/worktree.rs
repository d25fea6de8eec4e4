//! Isolated git worktrees for sub-agents: branch names, where a worktree
//! goes, the steps of creating one and of cleaning it up, and how git's
//! output is read.

use vstd::prelude::*;
use vstd::utf8::{decode_utf8, valid_utf8};
use crate::text::{
    ascii_alphanumeric, decimal, has_infix, in_class, is_ascii_alphanumeric, join, join_strings, owned,
    push_char, push_decimal, push_str, replace_char, replace_char_with, str_eq, trim, trim_class, trim_end, trim_start,
    trim_white_space, views, CharClass, contains_str,
};

verus! {

// ---------------------------------------------------------------------------
// Branch names
// ---------------------------------------------------------------------------

/// The character a branch name keeps: ASCII letters and digits and `._-/`
/// stay, anything else becomes `-`.
pub open spec fn branch_char(c: char) -> char {
    if is_ascii_alphanumeric(c) || c == '.' || c == '_' || c == '-' || c == '/' {
        c
    } else {
        '-'
    }
}

/// `s` split at every `sep`, empty pieces included (`str::split`).
pub open spec fn split_on(s: Seq<char>, sep: char) -> Seq<Seq<char>>
    decreases s.len(),
{
    if s.len() == 0 {
        seq![seq![]]
    } else {
        let r = split_on(s.drop_last(), sep);
        if s.last() == sep {
            r.push(seq![])
        } else {
            r.update(r.len() - 1, r.last().push(s.last()))
        }
    }
}

/// The non-empty pieces, in order.
pub open spec fn non_empty(pieces: Seq<Seq<char>>) -> Seq<Seq<char>>
    decreases pieces.len(),
{
    if pieces.len() == 0 {
        seq![]
    } else if pieces.last().len() == 0 {
        non_empty(pieces.drop_last())
    } else {
        non_empty(pieces.drop_last()).push(pieces.last())
    }
}

/// The name used when nothing of a branch name survives.
pub open spec fn generated_branch() -> Seq<char> {
    "codex/agent/generated"@
}

/// A branch name made safe: characters mapped by `branch_char`, `-`, `/` and
/// `.` trimmed from both ends, empty path segments dropped; a fixed name
/// when nothing is left.
pub open spec fn sanitized_branch(branch: Seq<char>) -> Seq<char> {
    let mapped = branch.map_values(|c: char| branch_char(c));
    let trimmed = trim(mapped, CharClass::BranchEdge);
    if trimmed.len() == 0 {
        generated_branch()
    } else {
        let normalized = join(non_empty(split_on(trimmed, '/')), "/"@);
        if normalized.len() == 0 {
            generated_branch()
        } else {
            normalized
        }
    }
}

fn map_branch_chars(branch: &str) -> (r: String)
    ensures
        r@ == branch@.map_values(|c: char| branch_char(c)),
{
    let n = branch.unicode_len();
    let mut out = String::new();
    let mut i: usize = 0;
    while i < n
        invariant
            n == branch@.len(),
            i <= n,
            out@ == branch@.subrange(0, i as int).map_values(|c: char| branch_char(c)),
        decreases n - i,
    {
        let ch = branch.get_char(i);
        if ascii_alphanumeric(ch) || ch == '.' || ch == '_' || ch == '-' || ch == '/' {
            push_char(&mut out, ch);
        } else {
            push_char(&mut out, '-');
        }
        i = i + 1;
        assert(out@ =~= branch@.subrange(0, i as int).map_values(|c: char| branch_char(c)));
    }
    assert(branch@.subrange(0, n as int) =~= branch@);
    out
}

/// The non-empty `/`-separated segments of `s`.
fn path_segments(s: &str) -> (r: Vec<String>)
    ensures
        views(r@) == non_empty(split_on(s@, '/')),
{
    let n = s.unicode_len();
    let mut segments: Vec<String> = Vec::new();
    let mut cur = String::new();
    let ghost mut pieces: Seq<Seq<char>> = seq![];
    let mut i: usize = 0;
    while i < n
        invariant
            n == s@.len(),
            i <= n,
            split_on(s@.subrange(0, i as int), '/') == pieces.push(cur@),
            views(segments@) == non_empty(pieces),
        decreases n - i,
    {
        let ch = s.get_char(i);
        let ghost prefix = s@.subrange(0, i as int);
        assert(s@.subrange(0, i + 1).drop_last() =~= prefix);
        assert(s@.subrange(0, i + 1).last() == ch);
        if ch == '/' {
            proof {
                assert(non_empty(pieces.push(cur@)).len() >= 0);
                assert(pieces.push(cur@).drop_last() =~= pieces);
            }
            if cur.unicode_len() > 0 {
                let ghost before = views(segments@);
                segments.push(cur);
                assert(views(segments@) =~= before.push(segments@.last()@));
            }
            proof {
                pieces = pieces.push(cur@);
            }
            cur = String::new();
            assert(split_on(s@.subrange(0, i + 1), '/') =~= pieces.push(cur@));
        } else {
            let ghost old_cur = cur@;
            push_char(&mut cur, ch);
            assert(pieces.push(old_cur).update(pieces.len() as int, old_cur.push(ch)) =~= pieces.push(
                cur@,
            ));
        }
        i = i + 1;
    }
    assert(s@.subrange(0, n as int) =~= s@);
    assert(pieces.push(cur@).drop_last() =~= pieces);
    if cur.unicode_len() > 0 {
        let ghost before = views(segments@);
        segments.push(cur);
        assert(views(segments@) =~= before.push(segments@.last()@));
    }
    segments
}

pub fn sanitize_branch_name(branch: &str) -> (r: String)
    ensures
        r@ == sanitized_branch(branch@),
{
    let out = map_branch_chars(branch);
    let trimmed = trim_class(out.as_str(), CharClass::BranchEdge);
    if trimmed.unicode_len() == 0 {
        return owned("codex/agent/generated");
    }
    let segments = path_segments(trimmed.as_str());
    let normalized = join_strings(&segments, "/");
    if normalized.unicode_len() == 0 {
        owned("codex/agent/generated")
    } else {
        normalized
    }
}

/// Every character of `s` is one a branch name keeps.
pub open spec fn branch_safe(s: Seq<char>) -> bool {
    forall|i: int| 0 <= i < s.len() ==> branch_char(#[trigger] s[i]) == s[i]
}

proof fn lemma_trim_start_safe(s: Seq<char>, class: CharClass)
    requires
        branch_safe(s),
    ensures
        branch_safe(trim_start(s, class)),
    decreases s.len(),
{
    if s.len() > 0 && in_class(class, s[0]) {
        assert forall|i: int| 0 <= i < s.drop_first().len() implies branch_char(
            #[trigger] s.drop_first()[i],
        ) == s.drop_first()[i] by {
            assert(s.drop_first()[i] == s[i + 1]);
        }
        lemma_trim_start_safe(s.drop_first(), class);
    }
}

proof fn lemma_trim_end_safe(s: Seq<char>, class: CharClass)
    requires
        branch_safe(s),
    ensures
        branch_safe(trim_end(s, class)),
    decreases s.len(),
{
    if s.len() > 0 && in_class(class, s.last()) {
        assert forall|i: int| 0 <= i < s.drop_last().len() implies branch_char(
            #[trigger] s.drop_last()[i],
        ) == s.drop_last()[i] by {
            assert(s.drop_last()[i] == s[i]);
        }
        lemma_trim_end_safe(s.drop_last(), class);
    }
}

proof fn lemma_split_safe(s: Seq<char>, sep: char)
    requires
        branch_safe(s),
    ensures
        forall|k: int|
            0 <= k < split_on(s, sep).len() ==> branch_safe(#[trigger] split_on(s, sep)[k]),
        split_on(s, sep).len() >= 1,
    decreases s.len(),
{
    if s.len() > 0 {
        let t = s.drop_last();
        assert forall|i: int| 0 <= i < t.len() implies branch_char(#[trigger] t[i]) == t[i] by {
            assert(t[i] == s[i]);
        }
        lemma_split_safe(t, sep);
        let r = split_on(t, sep);
        if s.last() != sep {
            let p = r.last().push(s.last());
            assert(branch_safe(r.last()));
            assert forall|i: int| 0 <= i < p.len() implies branch_char(#[trigger] p[i]) == p[i] by {
                if i < r.last().len() {
                    assert(p[i] == r.last()[i]);
                } else {
                    assert(p[i] == s[s.len() - 1]);
                }
            }
            assert forall|k: int|
                0 <= k < split_on(s, sep).len() implies branch_safe(#[trigger] split_on(s, sep)[k]) by {
                if k < r.len() - 1 {
                    assert(split_on(s, sep)[k] == r[k]);
                } else {
                    assert(split_on(s, sep)[k] == p);
                }
            }
        } else {
            assert forall|k: int|
                0 <= k < split_on(s, sep).len() implies branch_safe(#[trigger] split_on(s, sep)[k]) by {
                if k < r.len() {
                    assert(split_on(s, sep)[k] == r[k]);
                } else {
                    assert(split_on(s, sep)[k] =~= seq![]);
                }
            }
        }
    }
}

proof fn lemma_non_empty_safe(pieces: Seq<Seq<char>>)
    requires
        forall|k: int| 0 <= k < pieces.len() ==> branch_safe(#[trigger] pieces[k]),
    ensures
        forall|k: int|
            0 <= k < non_empty(pieces).len() ==> branch_safe(#[trigger] non_empty(pieces)[k]),
    decreases pieces.len(),
{
    if pieces.len() > 0 {
        let t = pieces.drop_last();
        assert forall|k: int| 0 <= k < t.len() implies branch_safe(#[trigger] t[k]) by {
            assert(t[k] == pieces[k]);
        }
        lemma_non_empty_safe(t);
        assert(branch_safe(pieces[pieces.len() - 1]));
        if pieces.last().len() > 0 {
            let r = non_empty(t);
            assert forall|k: int|
                0 <= k < non_empty(pieces).len() implies branch_safe(
                #[trigger] non_empty(pieces)[k],
            ) by {
                if k < r.len() {
                    assert(non_empty(pieces)[k] == r[k]);
                } else {
                    assert(non_empty(pieces)[k] == pieces.last());
                }
            }
        }
    }
}

proof fn lemma_join_safe(parts: Seq<Seq<char>>, sep: Seq<char>)
    requires
        forall|k: int| 0 <= k < parts.len() ==> branch_safe(#[trigger] parts[k]),
        branch_safe(sep),
    ensures
        branch_safe(join(parts, sep)),
    decreases parts.len(),
{
    if parts.len() == 1 {
        assert(branch_safe(parts[0]));
    } else if parts.len() > 1 {
        let t = parts.drop_last();
        assert forall|k: int| 0 <= k < t.len() implies branch_safe(#[trigger] t[k]) by {
            assert(t[k] == parts[k]);
        }
        lemma_join_safe(t, sep);
        let a = join(t, sep);
        let l = parts[parts.len() - 1];
        assert(branch_safe(l));
        let j = a + sep + l;
        assert forall|i: int| 0 <= i < j.len() implies branch_char(#[trigger] j[i]) == j[i] by {
            if i < a.len() {
                assert(j[i] == a[i]);
            } else if i < a.len() + sep.len() {
                assert(j[i] == sep[i - a.len()]);
            } else {
                assert(j[i] == l[i - a.len() - sep.len()]);
            }
        }
    }
}

/// A sanitized branch name is never empty, and holds only ASCII letters and
/// digits and `.`, `_`, `-` and `/`.
pub proof fn law_sanitized_branch_is_safe(branch: Seq<char>)
    ensures
        sanitized_branch(branch).len() > 0,
        branch_safe(sanitized_branch(branch)),
{
    let mapped = branch.map_values(|c: char| branch_char(c));
    assert forall|i: int| 0 <= i < mapped.len() implies branch_char(#[trigger] mapped[i])
        == mapped[i] by {
        assert(mapped[i] == branch_char(branch[i]));
    }
    lemma_trim_start_safe(mapped, CharClass::BranchEdge);
    lemma_trim_end_safe(trim_start(mapped, CharClass::BranchEdge), CharClass::BranchEdge);
    let trimmed = trim(mapped, CharClass::BranchEdge);
    reveal_strlit("codex/agent/generated");
    reveal_strlit("/");
    assert(branch_safe(generated_branch()));
    if trimmed.len() > 0 {
        lemma_split_safe(trimmed, '/');
        lemma_non_empty_safe(split_on(trimmed, '/'));
        assert(branch_safe("/"@));
        lemma_join_safe(non_empty(split_on(trimmed, '/')), "/"@);
    }
}

/// `p` holds no `sep`.
pub open spec fn free_of(p: Seq<char>, sep: char) -> bool {
    forall|i: int| 0 <= i < p.len() ==> #[trigger] p[i] != sep
}

/// No two `/` stand next to each other in `s`.
pub open spec fn no_double_slash(s: Seq<char>) -> bool {
    forall|i: int| 0 <= i < s.len() - 1 ==> !(#[trigger] s[i] == '/' && s[i + 1] == '/')
}

/// A branch name in the form sanitizing gives: not empty, only branch
/// characters, no `-`, `/` or `.` at either end, and no doubled `/`.
pub open spec fn is_normal_branch(s: Seq<char>) -> bool {
    &&& s.len() > 0
    &&& branch_safe(s)
    &&& !in_class(CharClass::BranchEdge, s[0])
    &&& !in_class(CharClass::BranchEdge, s.last())
    &&& no_double_slash(s)
}

/// Path segments that are not empty and hold branch characters other than `/`.
pub open spec fn clean_pieces(q: Seq<Seq<char>>) -> bool {
    forall|k: int|
        0 <= k < q.len() ==> (#[trigger] q[k]).len() > 0 && branch_safe(q[k]) && free_of(q[k], '/')
}

proof fn lemma_split_free(s: Seq<char>, sep: char)
    ensures
        forall|k: int| 0 <= k < split_on(s, sep).len() ==> free_of(#[trigger] split_on(s, sep)[k], sep),
        split_on(s, sep).len() >= 1,
    decreases s.len(),
{
    if s.len() > 0 {
        let t = s.drop_last();
        lemma_split_free(t, sep);
        let r = split_on(t, sep);
        if s.last() != sep {
            let p = r.last().push(s.last());
            assert(free_of(r[r.len() - 1], sep));
            assert forall|i: int| 0 <= i < p.len() implies #[trigger] p[i] != sep by {
                if i < r.last().len() {
                    assert(p[i] == r.last()[i]);
                }
            }
            assert forall|k: int| 0 <= k < split_on(s, sep).len() implies free_of(
                #[trigger] split_on(s, sep)[k],
                sep,
            ) by {
                if k < r.len() - 1 {
                    assert(split_on(s, sep)[k] == r[k]);
                } else {
                    assert(split_on(s, sep)[k] == p);
                }
            }
        } else {
            assert forall|k: int| 0 <= k < split_on(s, sep).len() implies free_of(
                #[trigger] split_on(s, sep)[k],
                sep,
            ) by {
                if k < r.len() {
                    assert(split_on(s, sep)[k] == r[k]);
                } else {
                    assert(split_on(s, sep)[k] =~= seq![]);
                }
            }
        }
    }
}

proof fn lemma_non_empty_clean(pieces: Seq<Seq<char>>)
    requires
        forall|k: int|
            0 <= k < pieces.len() ==> branch_safe(#[trigger] pieces[k]) && free_of(pieces[k], '/'),
    ensures
        clean_pieces(non_empty(pieces)),
    decreases pieces.len(),
{
    if pieces.len() > 0 {
        let t = pieces.drop_last();
        assert forall|k: int| 0 <= k < t.len() implies branch_safe(#[trigger] t[k]) && free_of(
            t[k],
            '/',
        ) by {
            assert(t[k] == pieces[k]);
        }
        lemma_non_empty_clean(t);
        let l = pieces[pieces.len() - 1];
        assert(branch_safe(l) && free_of(l, '/'));
        if l.len() > 0 {
            let r = non_empty(t);
            assert forall|k: int| 0 <= k < non_empty(pieces).len() implies (
            #[trigger] non_empty(pieces)[k]).len() > 0 && branch_safe(non_empty(pieces)[k])
                && free_of(non_empty(pieces)[k], '/') by {
                if k < r.len() {
                    assert(non_empty(pieces)[k] == r[k]);
                } else {
                    assert(non_empty(pieces)[k] == l);
                }
            }
        }
    }
}

proof fn lemma_split_first(t: Seq<char>, sep: char)
    requires
        t.len() > 0,
        t[0] != sep,
    ensures
        split_on(t, sep)[0].len() > 0,
        split_on(t, sep)[0][0] == t[0],
    decreases t.len(),
{
    let u = t.drop_last();
    lemma_split_free(u, sep);
    let r = split_on(u, sep);
    if u.len() == 0 {
        assert(r == seq![Seq::<char>::empty()]);
        assert(t.last() == t[0]);
        assert(split_on(t, sep) == r.update(0, r[0].push(t[0])));
    } else {
        assert(u[0] == t[0]);
        lemma_split_first(u, sep);
        if t.last() == sep {
            assert(split_on(t, sep)[0] == r[0]);
        } else if r.len() == 1 {
            assert(split_on(t, sep)[0] == r[0].push(t.last()));
        } else {
            assert(split_on(t, sep)[0] == r[0]);
        }
    }
}

proof fn lemma_split_last(t: Seq<char>, sep: char)
    requires
        t.len() > 0,
        t.last() != sep,
    ensures
        split_on(t, sep).len() >= 1,
        split_on(t, sep).last().len() > 0,
        split_on(t, sep).last().last() == t.last(),
{
    lemma_split_free(t.drop_last(), sep);
}

proof fn lemma_non_empty_first(pieces: Seq<Seq<char>>)
    requires
        pieces.len() > 0,
        pieces[0].len() > 0,
    ensures
        non_empty(pieces).len() > 0,
        non_empty(pieces)[0] == pieces[0],
    decreases pieces.len(),
{
    let t = pieces.drop_last();
    if pieces.len() == 1 {
        assert(non_empty(t) == Seq::<Seq<char>>::empty());
    } else {
        assert(t[0] == pieces[0]);
        lemma_non_empty_first(t);
    }
}

proof fn lemma_non_empty_all(pieces: Seq<Seq<char>>)
    requires
        forall|k: int| 0 <= k < pieces.len() ==> (#[trigger] pieces[k]).len() > 0,
    ensures
        non_empty(pieces) == pieces,
    decreases pieces.len(),
{
    if pieces.len() > 0 {
        let t = pieces.drop_last();
        assert forall|k: int| 0 <= k < t.len() implies (#[trigger] t[k]).len() > 0 by {
            assert(t[k] == pieces[k]);
        }
        lemma_non_empty_all(t);
        assert(pieces[pieces.len() - 1].len() > 0);
        assert(t.push(pieces.last()) =~= pieces);
    }
}

proof fn lemma_join_first(q: Seq<Seq<char>>, sep: Seq<char>)
    requires
        q.len() > 0,
        q[0].len() > 0,
    ensures
        join(q, sep).len() > 0,
        join(q, sep)[0] == q[0][0],
    decreases q.len(),
{
    if q.len() > 1 {
        let t = q.drop_last();
        assert(t[0] == q[0]);
        lemma_join_first(t, sep);
    }
}

proof fn lemma_join_last(q: Seq<Seq<char>>, sep: Seq<char>)
    requires
        q.len() > 0,
        q.last().len() > 0,
    ensures
        join(q, sep).len() > 0,
        join(q, sep).last() == q.last().last(),
{
}

proof fn lemma_split_free_piece(b: Seq<char>)
    requires
        free_of(b, '/'),
    ensures
        split_on(b, '/') == seq![b],
    decreases b.len(),
{
    if b.len() > 0 {
        let b2 = b.drop_last();
        assert forall|i: int| 0 <= i < b2.len() implies #[trigger] b2[i] != '/' by {
            assert(b2[i] == b[i]);
        }
        lemma_split_free_piece(b2);
        assert(b[b.len() - 1] != '/');
        assert(b2.push(b.last()) =~= b);
        assert(split_on(b, '/') =~= seq![b]);
    } else {
        assert(b =~= Seq::<char>::empty());
    }
}

proof fn lemma_split_append(a: Seq<char>, b: Seq<char>)
    requires
        free_of(b, '/'),
    ensures
        split_on(a + seq!['/'] + b, '/') == split_on(a, '/').push(b),
    decreases b.len(),
{
    let s = a + seq!['/'] + b;
    if b.len() == 0 {
        assert(s.drop_last() =~= a);
        assert(b =~= Seq::<char>::empty());
        assert(s.last() == '/');
    } else {
        let b2 = b.drop_last();
        assert forall|i: int| 0 <= i < b2.len() implies #[trigger] b2[i] != '/' by {
            assert(b2[i] == b[i]);
        }
        lemma_split_append(a, b2);
        assert(s.drop_last() =~= a + seq!['/'] + b2);
        assert(s.last() == b[b.len() - 1]);
        assert(b[b.len() - 1] != '/');
        assert(b2.push(b.last()) =~= b);
        assert(split_on(s, '/') =~= split_on(a, '/').push(b));
    }
}

proof fn lemma_split_join(q: Seq<Seq<char>>)
    requires
        q.len() > 0,
        forall|k: int| 0 <= k < q.len() ==> free_of(#[trigger] q[k], '/'),
    ensures
        split_on(join(q, "/"@), '/') == q,
    decreases q.len(),
{
    reveal_strlit("/");
    assert("/"@ =~= seq!['/']);
    if q.len() == 1 {
        assert(free_of(q[0], '/'));
        lemma_split_free_piece(q[0]);
        assert(seq![q[0]] =~= q);
    } else {
        let t = q.drop_last();
        assert forall|k: int| 0 <= k < t.len() implies free_of(#[trigger] t[k], '/') by {
            assert(t[k] == q[k]);
        }
        lemma_split_join(t);
        assert(free_of(q[q.len() - 1], '/'));
        lemma_split_append(join(t, "/"@), q.last());
        assert(join(q, "/"@) == join(t, "/"@) + seq!['/'] + q.last());
        assert(t.push(q.last()) =~= q);
    }
}

proof fn lemma_join_no_double(q: Seq<Seq<char>>)
    requires
        q.len() > 0,
        clean_pieces(q),
    ensures
        no_double_slash(join(q, "/"@)),
    decreases q.len(),
{
    reveal_strlit("/");
    assert("/"@ =~= seq!['/']);
    let j = join(q, "/"@);
    if q.len() == 1 {
        assert(free_of(q[0], '/'));
        assert forall|i: int| 0 <= i < j.len() - 1 implies !(#[trigger] j[i] == '/' && j[i + 1]
            == '/') by {
            assert(j[i] == q[0][i]);
        }
    } else {
        let t = q.drop_last();
        assert forall|k: int| 0 <= k < t.len() implies (#[trigger] t[k]).len() > 0 && branch_safe(
            t[k],
        ) && free_of(t[k], '/') by {
            assert(t[k] == q[k]);
        }
        lemma_join_no_double(t);
        let a = join(t, "/"@);
        let l = q[q.len() - 1];
        assert(l.len() > 0 && free_of(l, '/'));
        assert(t[t.len() - 1].len() > 0 && free_of(t[t.len() - 1], '/'));
        lemma_join_last(t, "/"@);
        assert(a.last() != '/');
        assert(l[0] != '/');
        assert(j == a + seq!['/'] + l);
        assert forall|i: int| 0 <= i < j.len() - 1 implies !(#[trigger] j[i] == '/' && j[i + 1]
            == '/') by {
            if i < a.len() - 1 {
                assert(j[i] == a[i] && j[i + 1] == a[i + 1]);
            } else if i == a.len() - 1 {
                assert(j[i] == a[i]);
            } else if i == a.len() {
                assert(j[i + 1] == l[0]);
            } else {
                assert(j[i] == l[i - a.len() - 1] && j[i + 1] == l[i - a.len()]);
            }
        }
    }
}

proof fn lemma_trim_start_first(s: Seq<char>, class: CharClass)
    ensures
        trim_start(s, class).len() > 0 ==> !in_class(class, trim_start(s, class)[0]),
    decreases s.len(),
{
    if s.len() > 0 && in_class(class, s[0]) {
        lemma_trim_start_first(s.drop_first(), class);
    }
}

proof fn lemma_trim_end_prefix(u: Seq<char>, class: CharClass)
    ensures
        trim_end(u, class).len() <= u.len(),
        trim_end(u, class) == u.subrange(0, trim_end(u, class).len() as int),
        trim_end(u, class).len() > 0 ==> !in_class(class, trim_end(u, class).last()),
    decreases u.len(),
{
    if u.len() > 0 && in_class(class, u.last()) {
        lemma_trim_end_prefix(u.drop_last(), class);
        let r = trim_end(u.drop_last(), class);
        assert(u.drop_last().subrange(0, r.len() as int) =~= u.subrange(0, r.len() as int));
    } else {
        assert(u.subrange(0, u.len() as int) =~= u);
    }
}

/// A string with no edge character at its ends is left as it is by trimming.
proof fn lemma_trim_fixed(s: Seq<char>, class: CharClass)
    requires
        s.len() > 0,
        !in_class(class, s[0]),
        !in_class(class, s.last()),
    ensures
        trim(s, class) == s,
{
}

/// Clean segments joined by `/`, with no edge character at the ends, form a
/// normal branch name that sanitizing leaves unchanged.
proof fn lemma_clean_join_fixed(q: Seq<Seq<char>>)
    requires
        q.len() > 0,
        clean_pieces(q),
        !in_class(CharClass::BranchEdge, q[0][0]),
        !in_class(CharClass::BranchEdge, q.last().last()),
    ensures
        is_normal_branch(join(q, "/"@)),
        sanitized_branch(join(q, "/"@)) == join(q, "/"@),
{
    let r = join(q, "/"@);
    reveal_strlit("/");
    assert(branch_safe("/"@));
    assert(q[0].len() > 0 && q[q.len() - 1].len() > 0);
    assert forall|k: int| 0 <= k < q.len() implies branch_safe(#[trigger] q[k]) by {}
    lemma_join_safe(q, "/"@);
    lemma_join_first(q, "/"@);
    lemma_join_last(q, "/"@);
    lemma_join_no_double(q);
    let mapped = r.map_values(|c: char| branch_char(c));
    assert(mapped =~= r);
    lemma_trim_fixed(r, CharClass::BranchEdge);
    assert forall|k: int| 0 <= k < q.len() implies free_of(#[trigger] q[k], '/') by {}
    lemma_split_join(q);
    assert forall|k: int| 0 <= k < q.len() implies (#[trigger] q[k]).len() > 0 by {}
    lemma_non_empty_all(q);
}

/// Sanitizing gives clean segments joined by `/`, with no edge character at
/// the ends.
proof fn lemma_sanitized_is_clean_join(branch: Seq<char>) -> (q: Seq<Seq<char>>)
    ensures
        q.len() > 0,
        clean_pieces(q),
        !in_class(CharClass::BranchEdge, q[0][0]),
        !in_class(CharClass::BranchEdge, q.last().last()),
        sanitized_branch(branch) == join(q, "/"@),
{
    let mapped = branch.map_values(|c: char| branch_char(c));
    assert forall|i: int| 0 <= i < mapped.len() implies branch_char(#[trigger] mapped[i])
        == mapped[i] by {
        assert(mapped[i] == branch_char(branch[i]));
    }
    lemma_trim_start_safe(mapped, CharClass::BranchEdge);
    let started = trim_start(mapped, CharClass::BranchEdge);
    lemma_trim_end_safe(started, CharClass::BranchEdge);
    lemma_trim_start_first(mapped, CharClass::BranchEdge);
    lemma_trim_end_prefix(started, CharClass::BranchEdge);
    let trimmed = trim(mapped, CharClass::BranchEdge);
    let generated = seq!["codex"@, "agent"@, "generated"@];
    if trimmed.len() > 0 {
        assert(trimmed[0] == started[0]);
        assert(trimmed[0] != '/' && trimmed.last() != '/');
        let p = split_on(trimmed, '/');
        lemma_split_free(trimmed, '/');
        lemma_split_safe(trimmed, '/');
        assert forall|k: int| 0 <= k < p.len() implies branch_safe(#[trigger] p[k]) && free_of(
            p[k],
            '/',
        ) by {}
        lemma_non_empty_clean(p);
        lemma_split_first(trimmed, '/');
        lemma_split_last(trimmed, '/');
        lemma_non_empty_first(p);
        let q = non_empty(p);
        assert(q[q.len() - 1] == p[p.len() - 1]);
        lemma_join_first(q, "/"@);
        q
    } else {
        reveal_strlit("codex/agent/generated");
        reveal_strlit("codex");
        reveal_strlit("agent");
        reveal_strlit("generated");
        reveal_strlit("/");
        assert(join(seq!["codex"@], "/"@) == "codex"@);
        assert(seq!["codex"@, "agent"@].drop_last() =~= seq!["codex"@]);
        assert(join(seq!["codex"@, "agent"@], "/"@) == "codex"@ + "/"@ + "agent"@);
        assert(generated.drop_last() =~= seq!["codex"@, "agent"@]);
        assert(join(generated, "/"@) =~= generated_branch());
        assert(clean_pieces(generated));
        generated
    }
}

/// A sanitized branch name is in normal form: not empty, only branch
/// characters, no `-`, `/` or `.` at either end, and no doubled `/`.
pub proof fn law_sanitized_branch_is_normal(branch: Seq<char>)
    ensures
        is_normal_branch(sanitized_branch(branch)),
{
    let q = lemma_sanitized_is_clean_join(branch);
    lemma_clean_join_fixed(q);
}

/// Sanitizing a sanitized branch name leaves it unchanged.
pub proof fn law_sanitize_idempotent(branch: Seq<char>)
    ensures
        sanitized_branch(sanitized_branch(branch)) == sanitized_branch(branch),
{
    let q = lemma_sanitized_is_clean_join(branch);
    lemma_clean_join_fixed(q);
}

/// The branch of a sub-agent's attempt: `codex/agent/{owner}/{call}`, with the
/// call id sanitized and its slashes turned into dashes, and `-{attempt}`
/// after the first attempt.
pub open spec fn default_branch_of(owner: Seq<char>, call_id: Seq<char>, attempt: nat) -> Seq<char> {
    let call = replace_char(sanitized_branch(call_id), '/', "-"@);
    if attempt == 0 {
        "codex/agent/"@ + owner + "/"@ + call
    } else {
        "codex/agent/"@ + owner + "/"@ + call + "-"@ + decimal(attempt)
    }
}

pub fn default_branch_name(owner_thread_id: &str, call_id: &str, attempt: usize) -> (r: String)
    ensures
        r@ == default_branch_of(owner_thread_id@, call_id@, attempt as nat),
{
    let sanitized = sanitize_branch_name(call_id);
    let call = replace_char_with(sanitized.as_str(), '/', "-");
    let mut r = owned("codex/agent/");
    push_str(&mut r, owner_thread_id);
    push_str(&mut r, "/");
    push_str(&mut r, call.as_str());
    if attempt > 0 {
        push_str(&mut r, "-");
        push_decimal(&mut r, attempt as u64);
    }
    r
}

/// The directory name of a worktree: the branch with `/` written `__`, and
/// `--{attempt}` after the first attempt.
pub open spec fn worktree_stem_of(branch: Seq<char>, attempt: nat) -> Seq<char> {
    let stem = replace_char(branch, '/', "__"@);
    if attempt > 0 {
        stem + "--"@ + decimal(attempt)
    } else {
        stem
    }
}

pub fn worktree_stem(branch: &str, attempt: usize) -> (r: String)
    ensures
        r@ == worktree_stem_of(branch@, attempt as nat),
{
    let mut stem = replace_char_with(branch, '/', "__");
    if attempt > 0 {
        push_str(&mut stem, "--");
        push_decimal(&mut stem, attempt as u64);
    }
    stem
}

// ---------------------------------------------------------------------------
// Reading git's output
// ---------------------------------------------------------------------------

/// What a finished git command left behind.
pub struct GitOutput {
    pub success: bool,
    pub stdout: Vec<u8>,
    pub stderr: Vec<u8>,
}

/// The text of the error that `String::from_utf8` reports for `bytes`.
pub uninterp spec fn utf8_error_text_of(bytes: Seq<u8>) -> Seq<char>;

/// `String::from_utf8`: the decoded text when `bytes` is valid UTF-8, else
/// the text of the error, named by `utf8_error_text_of`.
#[verifier::external_body]
fn string_from_utf8(bytes: &Vec<u8>) -> (r: Result<String, String>)
    ensures
        r is Ok <==> valid_utf8(bytes@),
        r matches Ok(s) ==> s@ == decode_utf8(bytes@),
        r matches Err(e) ==> e@ == utf8_error_text_of(bytes@),
{
    String::from_utf8(bytes.clone()).map_err(|err| err.to_string())
}

/// The text `String::from_utf8_lossy` makes of `bytes`.
pub uninterp spec fn utf8_lossy_of(bytes: Seq<u8>) -> Seq<char>;

/// `String::from_utf8_lossy`: the text of `bytes`, invalid sequences replaced,
/// named by `utf8_lossy_of`; valid UTF-8 is decoded as it is.
#[verifier::external_body]
fn utf8_lossy(bytes: &[u8]) -> (r: String)
    ensures
        r@ == utf8_lossy_of(bytes@),
        valid_utf8(bytes@) ==> r@ == decode_utf8(bytes@),
{
    String::from_utf8_lossy(bytes).into_owned()
}

/// The error message of a failed command: `prefix: ` and the trimmed error
/// output, or else the trimmed standard output, or else just `prefix`.
pub open spec fn command_error_text(prefix: Seq<char>, stderr: Seq<char>, stdout: Option<Seq<char>>) -> Seq<char> {
    let e = trim(stderr, CharClass::WhiteSpace);
    if e.len() > 0 {
        prefix + ": "@ + e
    } else {
        match stdout {
            Some(o) => if trim(o, CharClass::WhiteSpace).len() > 0 {
                prefix + ": "@ + trim(o, CharClass::WhiteSpace)
            } else {
                prefix
            },
            None => prefix,
        }
    }
}

/// The error message of a failed command, from its decoded outputs.
pub fn command_error_message(prefix: &str, stderr: &str, stdout: Option<&str>) -> (r: String)
    ensures
        r@ == command_error_text(
            prefix@,
            stderr@,
            match stdout {
                Some(o) => Some(o@),
                None => None,
            },
        ),
{
    let e = trim_white_space(stderr);
    if e.unicode_len() > 0 {
        let mut r = owned(prefix);
        push_str(&mut r, ": ");
        push_str(&mut r, e.as_str());
        return r;
    }
    match stdout {
        Some(o) => {
            let t = trim_white_space(o);
            if t.unicode_len() > 0 {
                let mut r = owned(prefix);
                push_str(&mut r, ": ");
                push_str(&mut r, t.as_str());
                return r;
            }
        },
        None => {},
    }
    owned(prefix)
}

/// The error message of a failed command, from its raw outputs.
pub fn command_stderr(prefix: &str, stderr: &[u8], stdout: Option<&[u8]>) -> (r: String)
    ensures
        r@ == command_error_text(
            prefix@,
            utf8_lossy_of(stderr@),
            match stdout {
                Some(o) => Some(utf8_lossy_of(o@)),
                None => None,
            },
        ),
{
    let e = utf8_lossy(stderr);
    match stdout {
        Some(o) => {
            let out = utf8_lossy(o);
            command_error_message(prefix, e.as_str(), Some(out.as_str()))
        },
        None => command_error_message(prefix, e.as_str(), None),
    }
}

/// A path given by its bytes, as text: an error when it is not UTF-8.
pub fn path_to_utf8(path: &Vec<u8>) -> (r: Result<String, String>)
    ensures
        r is Ok <==> valid_utf8(path@),
        r matches Ok(s) ==> s@ == decode_utf8(path@),
        r matches Err(e) ==> e@ == "path is not valid UTF-8: "@ + utf8_lossy_of(path@),
{
    match string_from_utf8(path) {
        Ok(s) => Ok(s),
        Err(_) => {
            let mut m = owned("path is not valid UTF-8: ");
            let shown = utf8_lossy(path.as_slice());
            push_str(&mut m, shown.as_str());
            Err(m)
        },
    }
}

/// The trimmed standard output of a successful command; `failure` when it
/// failed, `empty` when nothing is left, or the decoding error after `utf8_context`.
pub open spec fn trimmed_output_result(
    o: GitOutput,
    failure: Seq<char>,
    utf8_context: Seq<char>,
    empty: Seq<char>,
    r: Result<String, String>,
) -> bool {
    if !o.success {
        r matches Err(e) && e@ == failure
    } else if !valid_utf8(o.stdout@) {
        r matches Err(e) && e@ == utf8_context + utf8_error_text_of(o.stdout@)
    } else if trim(decode_utf8(o.stdout@), CharClass::WhiteSpace).len() == 0 {
        r matches Err(e) && e@ == empty
    } else {
        r matches Ok(s) && s@ == trim(decode_utf8(o.stdout@), CharClass::WhiteSpace)
    }
}

fn trimmed_stdout(o: &GitOutput, utf8_context: &str, empty: &str) -> (r: Result<String, String>)
    requires
        o.success,
    ensures
        trimmed_output_result(*o, seq![], utf8_context@, empty@, r),
{
    match string_from_utf8(&o.stdout) {
        Err(err) => {
            let mut m = owned(utf8_context);
            push_str(&mut m, err.as_str());
            Err(m)
        },
        Ok(text) => {
            let t = trim_white_space(text.as_str());
            if t.unicode_len() == 0 {
                Err(owned(empty))
            } else {
                Ok(t)
            }
        },
    }
}

/// The repository root that `git rev-parse --show-toplevel` printed.
pub fn repo_root_from_output(output: &GitOutput) -> (r: Result<String, String>)
    ensures
        trimmed_output_result(
            *output,
            "worktree isolation requires cwd to be inside a git repository"@,
            "invalid UTF-8 from git repo root query: "@,
            "git repo root query returned an empty path"@,
            r,
        ),
{
    if !output.success {
        return Err(owned("worktree isolation requires cwd to be inside a git repository"));
    }
    trimmed_stdout(
        output,
        "invalid UTF-8 from git repo root query: ",
        "git repo root query returned an empty path",
    )
}

/// The commit that `git rev-parse HEAD` printed.
pub fn head_commit_from_output(output: &GitOutput) -> (r: Result<String, String>)
    ensures
        trimmed_output_result(
            *output,
            command_error_text(
                "git rev-parse HEAD failed"@,
                utf8_lossy_of(output.stderr@),
                Some(utf8_lossy_of(output.stdout@)),
            ),
            "invalid UTF-8 from git rev-parse HEAD: "@,
            "git rev-parse HEAD returned an empty commit"@,
            r,
        ),
{
    if !output.success {
        return Err(
            command_stderr(
                "git rev-parse HEAD failed",
                output.stderr.as_slice(),
                Some(output.stdout.as_slice()),
            ),
        );
    }
    trimmed_stdout(
        output,
        "invalid UTF-8 from git rev-parse HEAD: ",
        "git rev-parse HEAD returned an empty commit",
    )
}

/// The outcome of a git command that prints nothing of use: success, or the
/// error message after `prefix`.
pub fn git_command_result(output: &GitOutput, prefix: &str) -> (r: Result<(), String>)
    ensures
        output.success ==> r is Ok,
        !output.success ==> (r matches Err(e) && e@ == command_error_text(
            prefix@,
            utf8_lossy_of(output.stderr@),
            Some(utf8_lossy_of(output.stdout@)),
        )),
{
    if output.success {
        Ok(())
    } else {
        Err(command_stderr(prefix, output.stderr.as_slice(), Some(output.stdout.as_slice())))
    }
}

// ---------------------------------------------------------------------------
// Creating a worktree
// ---------------------------------------------------------------------------

/// At most this many branch names are tried.
pub const MAX_PROVISION_ATTEMPTS: usize = 128;

/// What creating a worktree starts from.
pub struct ProvisionPlan {
    /// The ref the new branch starts at.
    pub base_ref: String,
    /// The sanitized branch asked for, if one was.
    pub explicit_branch: Option<String>,
    /// The owning thread's id, as text.
    pub owner: String,
    pub call_id: String,
}

/// The base ref: the requested one trimmed, or `HEAD` when that is missing or blank.
pub open spec fn base_ref_of(requested: Option<Seq<char>>) -> Seq<char> {
    match requested {
        Some(r) => if trim(r, CharClass::WhiteSpace).len() > 0 {
            trim(r, CharClass::WhiteSpace)
        } else {
            "HEAD"@
        },
        None => "HEAD"@,
    }
}

pub fn provision_plan(
    base_ref: Option<&str>,
    branch_name: Option<&str>,
    owner_thread_id: &str,
    call_id: &str,
) -> (p: ProvisionPlan)
    ensures
        p.base_ref@ == base_ref_of(
            match base_ref {
                Some(b) => Some(b@),
                None => None,
            },
        ),
        match branch_name {
            Some(b) => p.explicit_branch matches Some(e) && e@ == sanitized_branch(b@),
            None => p.explicit_branch is None,
        },
        p.owner@ == owner_thread_id@,
        p.call_id@ == call_id@,
{
    let base = match base_ref {
        Some(b) => {
            let t = trim_white_space(b);
            if t.unicode_len() > 0 {
                t
            } else {
                owned("HEAD")
            }
        },
        None => owned("HEAD"),
    };
    let explicit_branch = match branch_name {
        Some(b) => Some(sanitize_branch_name(b)),
        None => None,
    };
    ProvisionPlan {
        base_ref: base,
        explicit_branch,
        owner: owned(owner_thread_id),
        call_id: owned(call_id),
    }
}

/// The branch tried at `attempt`: the one asked for, or the default one.
pub open spec fn branch_for(p: ProvisionPlan, attempt: nat) -> Seq<char> {
    match p.explicit_branch {
        Some(b) => b@,
        None => default_branch_of(p.owner@, p.call_id@, attempt),
    }
}

/// The next thing to do while creating a worktree.
#[derive(Debug)]
pub enum ProvisionStep {
    /// Check whether the branch exists.
    CheckBranch { attempt: usize, branch: String },
    /// Check whether the worktree directory `stem` exists under the root.
    CheckPath { attempt: usize, branch: String, stem: String },
    /// Add the worktree at `stem` on the new branch.
    AddWorktree { attempt: usize, branch: String, stem: String },
    /// The worktree was created.
    Done { branch: String, stem: String },
    /// Creating the worktree failed.
    Failed { message: String },
}

/// What the caller found out for a step.
#[derive(Debug)]
pub enum ProvisionEvent {
    BranchChecked { exists: bool },
    /// Whether the directory exists, and its path as shown in messages.
    PathChecked { exists: bool, display: String },
    /// The lower-cased error, when adding the worktree failed.
    WorktreeAdded(Result<(), (String, String)>),
}

/// The step that tries `attempt`, or the final failure when all are used up.
pub open spec fn is_attempt_step(p: ProvisionPlan, attempt: nat, step: ProvisionStep) -> bool {
    if attempt < MAX_PROVISION_ATTEMPTS {
        step matches ProvisionStep::CheckBranch { attempt: a, branch } && a == attempt && branch@
            == branch_for(p, attempt)
    } else {
        step matches ProvisionStep::Failed { message } && message@
            == "failed to provision an isolated worktree after multiple attempts"@
    }
}

/// A failed add is retried (without an explicit branch) when the lower-cased
/// error says the branch or path already exists or is checked out.
pub open spec fn is_retryable_add_error(lowered: Seq<char>) -> bool {
    has_infix(lowered, "already exists"@) || has_infix(lowered, "is already checked out"@)
}

pub fn retryable_add_error(lowered: &str) -> (r: bool)
    ensures
        r == is_retryable_add_error(lowered@),
{
    contains_str(lowered, "already exists") || contains_str(lowered, "is already checked out")
}

/// The lower case of `s`, as `str::to_lowercase` gives it.
pub uninterp spec fn lowercase_of(s: Seq<char>) -> Seq<char>;

/// `str::to_lowercase`, named by `lowercase_of`; how each character is lowered
/// (Unicode case mapping) is not stated.
#[verifier::external_body]
fn to_lowercase(s: &str) -> (r: String)
    ensures
        r@ == lowercase_of(s@),
{
    s.to_lowercase()
}

/// The report of a failed `git worktree add`: its message and the lower case of it.
pub fn add_worktree_failure(message: String) -> (r: ProvisionEvent)
    ensures
        r matches ProvisionEvent::WorktreeAdded(Err((m, lowered))) && m == message && lowered@
            == lowercase_of(message@),
{
    let lowered = to_lowercase(message.as_str());
    ProvisionEvent::WorktreeAdded(Err((message, lowered)))
}

/// The step after `step` once `event` is known.
pub open spec fn is_next_step(p: ProvisionPlan, step: ProvisionStep, event: ProvisionEvent, next: ProvisionStep) -> bool {
    let explicit = p.explicit_branch is Some;
    match (step, event) {
        (ProvisionStep::CheckBranch { attempt, branch }, ProvisionEvent::BranchChecked { exists }) => {
            if exists {
                if explicit {
                    next matches ProvisionStep::Failed { message } && message@
                        == "git branch already exists: "@ + branch@
                } else {
                    is_attempt_step(p, (attempt + 1) as nat, next)
                }
            } else {
                next matches ProvisionStep::CheckPath { attempt: a, branch: b, stem } && a == attempt
                    && b == branch && stem@ == worktree_stem_of(branch@, attempt as nat)
            }
        },
        (ProvisionStep::CheckPath { attempt, branch, stem }, ProvisionEvent::PathChecked { exists, display }) => {
            if exists {
                if explicit {
                    next matches ProvisionStep::Failed { message } && message@
                        == "worktree path already exists: "@ + display@
                } else {
                    is_attempt_step(p, (attempt + 1) as nat, next)
                }
            } else {
                next matches ProvisionStep::AddWorktree { attempt: a, branch: b, stem: s } && a
                    == attempt && b == branch && s == stem
            }
        },
        (ProvisionStep::AddWorktree { attempt, branch, stem }, ProvisionEvent::WorktreeAdded(result)) => {
            match result {
                Ok(()) => next matches ProvisionStep::Done { branch: b, stem: s } && b == branch && s
                    == stem,
                Err((message, lowered)) => if !explicit && is_retryable_add_error(lowered@) {
                    is_attempt_step(p, (attempt + 1) as nat, next)
                } else {
                    next matches ProvisionStep::Failed { message: m } && m == message
                },
            }
        },
        _ => false,
    }
}

/// The event belongs to the step.
pub open spec fn answers(step: ProvisionStep, event: ProvisionEvent) -> bool {
    match (step, event) {
        (ProvisionStep::CheckBranch { .. }, ProvisionEvent::BranchChecked { .. }) => true,
        (ProvisionStep::CheckPath { .. }, ProvisionEvent::PathChecked { .. }) => true,
        (ProvisionStep::AddWorktree { .. }, ProvisionEvent::WorktreeAdded(_)) => true,
        _ => false,
    }
}

impl ProvisionPlan {
    fn attempt_step(&self, attempt: usize) -> (step: ProvisionStep)
        requires
            attempt <= MAX_PROVISION_ATTEMPTS,
        ensures
            is_attempt_step(*self, attempt as nat, step),
    {
        if attempt >= MAX_PROVISION_ATTEMPTS {
            return ProvisionStep::Failed {
                message: owned("failed to provision an isolated worktree after multiple attempts"),
            };
        }
        let branch = match &self.explicit_branch {
            Some(b) => b.clone(),
            None => default_branch_name(self.owner.as_str(), self.call_id.as_str(), attempt),
        };
        ProvisionStep::CheckBranch { attempt, branch }
    }

    /// The first step: check the branch of the first attempt.
    pub fn first_step(&self) -> (step: ProvisionStep)
        ensures
            is_attempt_step(*self, 0, step),
    {
        self.attempt_step(0)
    }

    /// The step after `step`, given what was found out for it.
    pub fn next_step(&self, step: ProvisionStep, event: ProvisionEvent) -> (next: ProvisionStep)
        requires
            answers(step, event),
            match step {
                ProvisionStep::CheckBranch { attempt, .. } => attempt < MAX_PROVISION_ATTEMPTS,
                ProvisionStep::CheckPath { attempt, .. } => attempt < MAX_PROVISION_ATTEMPTS,
                ProvisionStep::AddWorktree { attempt, .. } => attempt < MAX_PROVISION_ATTEMPTS,
                _ => true,
            },
        ensures
            is_next_step(*self, step, event, next),
    {
        let explicit = self.explicit_branch.is_some();
        match (step, event) {
            (ProvisionStep::CheckBranch { attempt, branch }, ProvisionEvent::BranchChecked { exists }) => {
                if exists {
                    if explicit {
                        let mut message = owned("git branch already exists: ");
                        push_str(&mut message, branch.as_str());
                        ProvisionStep::Failed { message }
                    } else {
                        self.attempt_step(attempt + 1)
                    }
                } else {
                    let stem = worktree_stem(branch.as_str(), attempt);
                    ProvisionStep::CheckPath { attempt, branch, stem }
                }
            },
            (ProvisionStep::CheckPath { attempt, branch, stem }, ProvisionEvent::PathChecked { exists, display }) => {
                if exists {
                    if explicit {
                        let mut message = owned("worktree path already exists: ");
                        push_str(&mut message, display.as_str());
                        ProvisionStep::Failed { message }
                    } else {
                        self.attempt_step(attempt + 1)
                    }
                } else {
                    ProvisionStep::AddWorktree { attempt, branch, stem }
                }
            },
            (ProvisionStep::AddWorktree { attempt, branch, stem }, ProvisionEvent::WorktreeAdded(result)) => {
                match result {
                    Ok(()) => ProvisionStep::Done { branch, stem },
                    Err((message, lowered)) => {
                        if !explicit && retryable_add_error(lowered.as_str()) {
                            self.attempt_step(attempt + 1)
                        } else {
                            ProvisionStep::Failed { message }
                        }
                    },
                }
            },
            _ => ProvisionStep::Failed { message: String::new() },
        }
    }
}

/// With a branch asked for, a run never moves to another attempt: every
/// refusal ends it.
pub proof fn law_explicit_branch_never_retried(
    p: ProvisionPlan,
    step: ProvisionStep,
    event: ProvisionEvent,
    next: ProvisionStep,
)
    requires
        p.explicit_branch is Some,
        is_next_step(p, step, event, next),
    ensures
        !(next is CheckBranch),
{
}

/// The branch every attempt of a run with a branch asked for uses is that branch.
pub proof fn law_explicit_branch_used(p: ProvisionPlan, attempt: nat)
    requires
        p.explicit_branch is Some,
    ensures
        branch_for(p, attempt) == p.explicit_branch->0@,
{
}

// ---------------------------------------------------------------------------
// Cleaning up a worktree
// ---------------------------------------------------------------------------

/// What to do with a sub-agent's worktree when it finishes.
#[derive(PartialEq, Eq, Structural, Clone, Copy, Debug)]
pub enum AgentWorktreeCleanup {
    KeepWorktree,
    AutoRemoveWorktree,
}

/// How far the clean-up of a worktree got.
#[derive(PartialEq, Eq, Structural, Clone, Copy, Debug)]
pub enum AgentWorktreeCleanupStatus {
    Pending,
    Removed,
    Kept,
    RemoveFailed,
}

/// A sub-agent's worktree.
#[derive(Debug, PartialEq)]
pub struct AgentWorktreeInfo {
    pub repo_root: String,
    pub worktree_path: String,
    pub branch: String,
    pub base_ref: String,
    pub cleanup: AgentWorktreeCleanup,
    pub cleanup_status: AgentWorktreeCleanupStatus,
    pub cleanup_error: Option<String>,
    pub tip_commit: Option<String>,
}

/// The record of a worktree just created.
pub fn new_worktree_info(
    repo_root: String,
    worktree_path: String,
    branch: String,
    base_ref: String,
    cleanup: AgentWorktreeCleanup,
    tip_commit: Result<String, String>,
) -> (info: AgentWorktreeInfo)
    ensures
        info.repo_root == repo_root,
        info.worktree_path == worktree_path,
        info.branch == branch,
        info.base_ref == base_ref,
        info.cleanup == cleanup,
        info.cleanup_status == AgentWorktreeCleanupStatus::Pending,
        info.cleanup_error is None,
        info.tip_commit == match tip_commit {
            Ok(t) => Some(t),
            Err(_) => None::<String>,
        },
{
    AgentWorktreeInfo {
        repo_root,
        worktree_path,
        branch,
        base_ref,
        cleanup,
        cleanup_status: AgentWorktreeCleanupStatus::Pending,
        cleanup_error: None,
        tip_commit: match tip_commit {
            Ok(t) => Some(t),
            Err(_) => None,
        },
    }
}

/// The next thing to do while cleaning up.
#[derive(Debug)]
pub enum FinalizeStep {
    /// Read the worktree's current commit.
    ReadHeadCommit,
    /// Check whether the worktree directory still exists.
    CheckPathExists,
    /// Remove the worktree.
    RemoveWorktree,
    /// Clean-up is over, with this outcome.
    Done(Result<(), String>),
}

/// What the caller found out for a step.
#[derive(Debug)]
pub enum FinalizeEvent {
    HeadCommit(Result<String, String>),
    PathExists(bool),
    Removed(Result<(), String>),
}

/// Whether the worktree is removed: when forced, or when its policy says so.
pub open spec fn should_remove(info: AgentWorktreeInfo, force_remove: bool) -> bool {
    force_remove || info.cleanup == AgentWorktreeCleanup::AutoRemoveWorktree
}

/// The first step: nothing to do unless clean-up is pending.
pub fn finalize_first_step(info: &AgentWorktreeInfo) -> (step: FinalizeStep)
    ensures
        info.cleanup_status != AgentWorktreeCleanupStatus::Pending ==> step matches FinalizeStep::Done(Ok(())),
        info.cleanup_status == AgentWorktreeCleanupStatus::Pending ==> step is ReadHeadCommit,
{
    if info.cleanup_status != AgentWorktreeCleanupStatus::Pending {
        FinalizeStep::Done(Ok(()))
    } else {
        FinalizeStep::ReadHeadCommit
    }
}

/// The step after `step`, and the record after it, once `event` is known.
pub open spec fn is_finalize_next(
    old_info: AgentWorktreeInfo,
    force_remove: bool,
    step: FinalizeStep,
    event: FinalizeEvent,
    info: AgentWorktreeInfo,
    next: FinalizeStep,
) -> bool {
    let same_place = info.repo_root == old_info.repo_root && info.worktree_path
        == old_info.worktree_path && info.branch == old_info.branch && info.base_ref
        == old_info.base_ref && info.cleanup == old_info.cleanup;
    &&& same_place
    &&& match (step, event) {
        (FinalizeStep::ReadHeadCommit, FinalizeEvent::HeadCommit(r)) => {
            &&& info.tip_commit == match r {
                Ok(t) => Some(t),
                Err(_) => old_info.tip_commit,
            }
            &&& if should_remove(old_info, force_remove) {
                next is CheckPathExists && info.cleanup_status == old_info.cleanup_status
                    && info.cleanup_error == old_info.cleanup_error
            } else {
                next matches FinalizeStep::Done(Ok(())) && info.cleanup_status
                    == AgentWorktreeCleanupStatus::Kept && info.cleanup_error is None
            }
        },
        (FinalizeStep::CheckPathExists, FinalizeEvent::PathExists(exists)) => {
            &&& info.tip_commit == old_info.tip_commit
            &&& if exists {
                next is RemoveWorktree && info.cleanup_status == old_info.cleanup_status
                    && info.cleanup_error == old_info.cleanup_error
            } else {
                next matches FinalizeStep::Done(Ok(())) && info.cleanup_status
                    == AgentWorktreeCleanupStatus::Removed && info.cleanup_error is None
            }
        },
        (FinalizeStep::RemoveWorktree, FinalizeEvent::Removed(r)) => {
            &&& info.tip_commit == old_info.tip_commit
            &&& match r {
                Ok(()) => next matches FinalizeStep::Done(Ok(())) && info.cleanup_status
                    == AgentWorktreeCleanupStatus::Removed && info.cleanup_error is None,
                Err(e) => next == FinalizeStep::Done(Err(e)) && info.cleanup_status
                    == AgentWorktreeCleanupStatus::RemoveFailed && info.cleanup_error == Some(e),
            }
        },
        _ => false,
    }
}

pub open spec fn finalize_answers(step: FinalizeStep, event: FinalizeEvent) -> bool {
    match (step, event) {
        (FinalizeStep::ReadHeadCommit, FinalizeEvent::HeadCommit(_)) => true,
        (FinalizeStep::CheckPathExists, FinalizeEvent::PathExists(_)) => true,
        (FinalizeStep::RemoveWorktree, FinalizeEvent::Removed(_)) => true,
        _ => false,
    }
}

/// Advances the clean-up of `info` by one step.
pub fn finalize_next_step(
    info: &mut AgentWorktreeInfo,
    force_remove: bool,
    step: FinalizeStep,
    event: FinalizeEvent,
) -> (next: FinalizeStep)
    requires
        finalize_answers(step, event),
    ensures
        is_finalize_next(*old(info), force_remove, step, event, *final(info), next),
{
    match (step, event) {
        (FinalizeStep::ReadHeadCommit, FinalizeEvent::HeadCommit(r)) => {
            match r {
                Ok(tip) => info.tip_commit = Some(tip),
                Err(_) => {},
            }
            if force_remove || info.cleanup == AgentWorktreeCleanup::AutoRemoveWorktree {
                FinalizeStep::CheckPathExists
            } else {
                info.cleanup_status = AgentWorktreeCleanupStatus::Kept;
                info.cleanup_error = None;
                FinalizeStep::Done(Ok(()))
            }
        },
        (FinalizeStep::CheckPathExists, FinalizeEvent::PathExists(exists)) => {
            if exists {
                FinalizeStep::RemoveWorktree
            } else {
                info.cleanup_status = AgentWorktreeCleanupStatus::Removed;
                info.cleanup_error = None;
                FinalizeStep::Done(Ok(()))
            }
        },
        (FinalizeStep::RemoveWorktree, FinalizeEvent::Removed(r)) => {
            match r {
                Ok(()) => {
                    info.cleanup_status = AgentWorktreeCleanupStatus::Removed;
                    info.cleanup_error = None;
                    FinalizeStep::Done(Ok(()))
                },
                Err(e) => {
                    info.cleanup_status = AgentWorktreeCleanupStatus::RemoveFailed;
                    info.cleanup_error = Some(e.clone());
                    FinalizeStep::Done(Err(e))
                },
            }
        },
        _ => FinalizeStep::Done(Ok(())),
    }
}

/// Clean-up that ends settles the worktree: it is then no longer pending, so
/// a second clean-up does nothing.
pub proof fn law_finalize_settles(
    old_info: AgentWorktreeInfo,
    force_remove: bool,
    step: FinalizeStep,
    event: FinalizeEvent,
    info: AgentWorktreeInfo,
    next: FinalizeStep,
)
    requires
        is_finalize_next(old_info, force_remove, step, event, info, next),
        next is Done,
    ensures
        info.cleanup_status != AgentWorktreeCleanupStatus::Pending,
{
}

/// A worktree whose policy is to keep it, finalized without force, is kept
/// and never removed.
pub proof fn law_keep_policy_keeps(
    old_info: AgentWorktreeInfo,
    event: FinalizeEvent,
    info: AgentWorktreeInfo,
    next: FinalizeStep,
)
    requires
        old_info.cleanup == AgentWorktreeCleanup::KeepWorktree,
        is_finalize_next(old_info, false, FinalizeStep::ReadHeadCommit, event, info, next),
    ensures
        info.cleanup_status == AgentWorktreeCleanupStatus::Kept,
        next matches FinalizeStep::Done(Ok(())),
{
}

} // verus!
