//! Ordering of the session list: newest first by start time, ties kept in
//! the order in which the sessions were found.
use vstd::prelude::*;
use vstd::string::*;

use crate::models::Session;

verus! {

/// Lexicographic order on text, character by character; a proper prefix
/// comes first. This is how `String`s compare.
pub open spec fn text_lt(a: Seq<char>, b: Seq<char>) -> bool
    decreases a.len(),
{
    if a.len() == 0 {
        b.len() > 0
    } else if b.len() == 0 {
        false
    } else if a[0] != b[0] {
        a[0] < b[0]
    } else {
        text_lt(a.drop_first(), b.drop_first())
    }
}

/// No text comes before itself.
pub proof fn lemma_text_lt_irreflexive(a: Seq<char>)
    ensures
        !text_lt(a, a),
    decreases a.len(),
{
    if a.len() > 0 {
        lemma_text_lt_irreflexive(a.drop_first());
    }
}

/// Of two texts, at most one comes before the other.
pub proof fn lemma_text_lt_asymmetric(a: Seq<char>, b: Seq<char>)
    requires
        text_lt(a, b),
    ensures
        !text_lt(b, a),
    decreases a.len(),
{
    if a.len() > 0 && b.len() > 0 && a[0] == b[0] {
        lemma_text_lt_asymmetric(a.drop_first(), b.drop_first());
    }
}

/// The order is transitive.
pub proof fn lemma_text_lt_transitive(a: Seq<char>, b: Seq<char>, c: Seq<char>)
    requires
        text_lt(a, b),
        text_lt(b, c),
    ensures
        text_lt(a, c),
    decreases a.len(),
{
    if a.len() > 0 && b.len() > 0 && c.len() > 0 && a[0] == b[0] && b[0] == c[0] {
        lemma_text_lt_transitive(a.drop_first(), b.drop_first(), c.drop_first());
    }
}

/// Two different texts are ordered one way or the other.
pub proof fn lemma_text_lt_total(a: Seq<char>, b: Seq<char>)
    requires
        a != b,
    ensures
        text_lt(a, b) || text_lt(b, a),
    decreases a.len(),
{
    if a.len() > 0 && b.len() > 0 && a[0] == b[0] {
        if a.drop_first() == b.drop_first() {
            assert(a =~= seq![a[0]] + a.drop_first());
            assert(b =~= seq![b[0]] + b.drop_first());
        }
        lemma_text_lt_total(a.drop_first(), b.drop_first());
    } else if a.len() == 0 && b.len() == 0 {
        assert(a =~= b);
    }
}

/// Whether `a` comes before `b`.
pub fn text_less(a: &String, b: &String) -> (r: bool)
    ensures
        r == text_lt(a@, b@),
{
    let n = a.as_str().unicode_len();
    let m = b.as_str().unicode_len();
    let mut i: usize = 0;
    assert(a@.skip(0) =~= a@);
    assert(b@.skip(0) =~= b@);
    while i < n && i < m
        invariant
            n == a@.len(),
            m == b@.len(),
            i <= n,
            i <= m,
            text_lt(a@, b@) == text_lt(a@.skip(i as int), b@.skip(i as int)),
        decreases n - i,
    {
        let x = a.as_str().get_char(i);
        let y = b.as_str().get_char(i);
        if x != y {
            return x < y;
        }
        assert(a@.skip(i as int).drop_first() =~= a@.skip(i + 1));
        assert(b@.skip(i as int).drop_first() =~= b@.skip(i + 1));
        i = i + 1;
    }
    i == n && i < m
}

/// The key sessions are listed by.
pub open spec fn start_key(s: Session) -> Seq<char> {
    s.started_at@
}

/// Newest first: no session starts after one listed before it.
pub open spec fn newest_first(s: Seq<Session>) -> bool {
    forall|a: int, b: int|
        0 <= a < b < s.len() ==> !text_lt(start_key(#[trigger] s[a]), start_key(#[trigger] s[b]))
}

/// `out` lists the sessions of `input` in the arrangement `perm`: `out[k]`
/// is `input[perm[k]]`, each of `input` once.
pub open spec fn arranged(input: Seq<Session>, out: Seq<Session>, perm: Seq<int>) -> bool {
    &&& out.len() == input.len()
    &&& perm.len() == input.len()
    &&& forall|k: int|
        0 <= k < perm.len() ==> 0 <= #[trigger] perm[k] < input.len() && out[k] == input[perm[k]]
    &&& forall|a: int, b: int|
        0 <= a < perm.len() && 0 <= b < perm.len() && a != b ==> #[trigger] perm[a]
            != #[trigger] perm[b]
}

/// Sessions with equal start times keep their relative order.
pub open spec fn ties_kept(out: Seq<Session>, perm: Seq<int>) -> bool {
    forall|a: int, b: int|
        0 <= a < b < out.len() && start_key(#[trigger] out[a]) == start_key(#[trigger] out[b])
            ==> perm[a] < perm[b]
}

/// `out` is `input` listed newest first, ties in their original order.
pub open spec fn listed_newest_first(input: Seq<Session>, out: Seq<Session>) -> bool {
    &&& newest_first(out)
    &&& exists|perm: Seq<int>| arranged(input, out, perm) && ties_kept(out, perm)
}

/// Lists sessions newest first by start time; sessions that started at the
/// same time keep the order in which they were given.
pub fn sort_newest_first(sessions: &Vec<Session>) -> (r: Vec<Session>)
    ensures
        listed_newest_first(sessions@, r@),
{
    let n = sessions.len();
    let mut out: Vec<Session> = Vec::new();
    let ghost mut perm: Seq<int> = Seq::empty();
    let mut i: usize = 0;
    while i < n
        invariant
            n == sessions@.len(),
            i <= n,
            out@.len() == i,
            perm.len() == i,
            forall|k: int|
                0 <= k < i ==> 0 <= #[trigger] perm[k] < i && out@[k] == sessions@[perm[k]],
            forall|a: int, b: int|
                0 <= a < i && 0 <= b < i && a != b ==> #[trigger] perm[a] != #[trigger] perm[b],
            newest_first(out@),
            ties_kept(out@, perm),
        decreases n - i,
    {
        let item = sessions[i].duplicate();
        let mut p: usize = 0;
        while p < out.len() && !text_less(&out[p].started_at, &item.started_at)
            invariant
                p <= out@.len(),
                forall|q: int|
                    0 <= q < p ==> !text_lt(start_key(#[trigger] out@[q]), start_key(item)),
            decreases out@.len() - p,
        {
            p = p + 1;
        }
        let ghost old_out = out@;
        let ghost old_perm = perm;
        proof {
            // everything from `p` on starts strictly before the new item
            assert forall|b: int| p <= b < old_out.len() implies text_lt(
                start_key(#[trigger] old_out[b]),
                start_key(item),
            ) by {
                assert(text_lt(start_key(old_out[p as int]), start_key(item)));
                if b > p {
                    assert(!text_lt(start_key(old_out[p as int]), start_key(old_out[b])));
                    if start_key(old_out[b]) != start_key(old_out[p as int]) {
                        lemma_text_lt_total(start_key(old_out[b]), start_key(old_out[p as int]));
                        lemma_text_lt_transitive(
                            start_key(old_out[b]),
                            start_key(old_out[p as int]),
                            start_key(item),
                        );
                    }
                }
            }
        }
        out.insert(p, item);
        proof {
            perm = old_perm.insert(p as int, i as int);
            assert(out@ =~= old_out.insert(p as int, item));
            assert forall|a: int, b: int| 0 <= a < b < out@.len() implies !text_lt(
                start_key(#[trigger] out@[a]),
                start_key(#[trigger] out@[b]),
            ) by {
                if b == p {
                    assert(out@[a] == old_out[a]);
                } else if a == p {
                    assert(out@[b] == old_out[b - 1]);
                    lemma_text_lt_asymmetric(start_key(old_out[b - 1]), start_key(item));
                } else {
                    let oa = if a < p { a } else { a - 1 };
                    let ob = if b < p { b } else { b - 1 };
                    assert(out@[a] == old_out[oa]);
                    assert(out@[b] == old_out[ob]);
                }
            }
            assert forall|a: int, b: int|
                0 <= a < b < out@.len() && start_key(#[trigger] out@[a]) == start_key(
                    #[trigger] out@[b],
                ) implies perm[a] < perm[b] by {
                if b == p {
                    assert(perm[a] == old_perm[a]);
                } else if a == p {
                    assert(out@[b] == old_out[b - 1]);
                    lemma_text_lt_irreflexive(start_key(item));
                } else {
                    let oa = if a < p { a } else { a - 1 };
                    let ob = if b < p { b } else { b - 1 };
                    assert(out@[a] == old_out[oa] && perm[a] == old_perm[oa]);
                    assert(out@[b] == old_out[ob] && perm[b] == old_perm[ob]);
                }
            }
            assert forall|k: int| 0 <= k < i + 1 implies 0 <= #[trigger] perm[k] < i + 1
                && out@[k] == sessions@[perm[k]] by {
                if k < p {
                    assert(perm[k] == old_perm[k]);
                } else if k > p {
                    assert(perm[k] == old_perm[k - 1]);
                }
            }
            assert forall|a: int, b: int|
                0 <= a < i + 1 && 0 <= b < i + 1 && a != b implies #[trigger] perm[a]
                != #[trigger] perm[b] by {
                let oa = if a < p { a } else { a - 1 };
                let ob = if b < p { b } else { b - 1 };
                if a != p {
                    assert(perm[a] == old_perm[oa]);
                }
                if b != p {
                    assert(perm[b] == old_perm[ob]);
                }
            }
        }
        i = i + 1;
    }
    proof {
        assert(arranged(sessions@, out@, perm));
    }
    out
}

} // verus!
