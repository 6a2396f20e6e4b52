//! The query layer shared by every container node.
//!
//! A container keeps its children in a *body*: an ordered list of entries, each
//! entry one variant of a closed enum. A query names a kind of child and reads
//! the body through the [`Pick`] trait, which says for one entry whether it
//! holds a child of that kind. Nothing here changes a body.
use vstd::prelude::*;

verus! {

/// An entry of a body that may hold a child of kind `V`.
///
/// `V` is a reference to a node, or a small enum of references such as a
/// particle or a facet. One entry type implements the trait once for every
/// kind of child that its container can be asked for.
pub trait Pick<'a, V>: Sized {
    /// The child of kind `V` that this entry holds, if it holds one.
    spec fn picked(&self) -> Option<V>;

    /// Reads the child of kind `V` out of this entry.
    fn pick(&'a self) -> (v: Option<V>)
        ensures
            v == self.picked(),
    ;
}

/// The child of kind `V` that `entry` holds: [`Pick::picked`], with the kind
/// written out.
pub open spec fn held<'a, B: Pick<'a, V>, V>(entry: B) -> Option<V> {
    entry.picked()
}

/// Every child of kind `V` in `body`, in the order of the body.
pub open spec fn matching<'a, B: Pick<'a, V>, V>(body: Seq<B>) -> Seq<V>
    decreases body.len(),
{
    if body.len() == 0 {
        Seq::empty()
    } else {
        let before = matching::<B, V>(body.drop_last());
        match body.last().picked() {
            Some(v) => before.push(v),
            None => before,
        }
    }
}

/// The index in `body` of each child of kind `V`, in increasing order.
pub open spec fn positions<'a, B: Pick<'a, V>, V>(body: Seq<B>) -> Seq<int>
    decreases body.len(),
{
    if body.len() == 0 {
        Seq::empty()
    } else {
        let before = positions::<B, V>(body.drop_last());
        match body.last().picked() {
            Some(_) => before.push(body.len() - 1),
            None => before,
        }
    }
}

/// The set of indices at which `body` holds a child of kind `V`.
pub open spec fn matching_indices<'a, B: Pick<'a, V>, V>(body: Seq<B>) -> Set<int> {
    Set::new(|i: int| 0 <= i < body.len() && body[i].picked() is Some)
}

/// The only child of kind `V` in `body`: absent when there is none, and absent
/// when there are several.
pub open spec fn sole<'a, B: Pick<'a, V>, V>(body: Seq<B>) -> Option<V> {
    let all = matching::<B, V>(body);
    if all.len() == 1 {
        Some(all[0])
    } else {
        None
    }
}

/// The first child of kind `V` in `body`, if there is any.
pub open spec fn first<'a, B: Pick<'a, V>, V>(body: Seq<B>) -> Option<V> {
    let all = matching::<B, V>(body);
    if all.len() > 0 {
        Some(all[0])
    } else {
        None
    }
}

/// `out` lists the children of kind `V` of `body`, the `k`-th of them found at
/// index `at[k]`: every listed child is in the body at its index, the indices
/// increase, and no child of that kind is left out.
pub open spec fn selects<'a, B: Pick<'a, V>, V>(body: Seq<B>, out: Seq<V>, at: Seq<int>) -> bool {
    &&& at.len() == out.len()
    &&& forall|k: int|
        0 <= k < at.len() ==> 0 <= #[trigger] at[k] < body.len() && body[at[k]].picked() == Some(
            out[k],
        )
    &&& forall|j: int, k: int| 0 <= j < k < at.len() ==> at[j] < at[k]
    &&& forall|i: int|
        0 <= i < body.len() && (#[trigger] body[i]).picked() is Some ==> at.contains(i)
}

/// Extending a body by one entry extends its children by what the entry holds.
pub proof fn lemma_matching_push<'a, B: Pick<'a, V>, V>(body: Seq<B>, entry: B)
    ensures
        matching::<B, V>(body.push(entry)) == match entry.picked() {
            Some(v) => matching::<B, V>(body).push(v),
            None => matching::<B, V>(body),
        },
        positions::<B, V>(body.push(entry)) == match entry.picked() {
            Some(_) => positions::<B, V>(body).push(body.len() as int),
            None => positions::<B, V>(body),
        },
{
    assert(body.push(entry).drop_last() == body);
}

/// Order preservation: the children that a multi extraction returns are exactly
/// the matching entries of the body, each once, in the order of the body.
pub proof fn lemma_matching_selects<'a, B: Pick<'a, V>, V>(body: Seq<B>)
    ensures
        selects::<B, V>(body, matching::<B, V>(body), positions::<B, V>(body)),
    decreases body.len(),
{
    let out = matching::<B, V>(body);
    let at = positions::<B, V>(body);
    if body.len() > 0 {
        let front = body.drop_last();
        let out0 = matching::<B, V>(front);
        let at0 = positions::<B, V>(front);
        lemma_matching_selects::<B, V>(front);
        assert forall|k: int| 0 <= k < at.len() implies 0 <= #[trigger] at[k] < body.len()
            && body[at[k]].picked() == Some(out[k]) by {
            if k < at0.len() {
                assert(at[k] == at0[k]);
                assert(front[at0[k]] == body[at0[k]]);
            }
        }
        assert forall|j: int, k: int| 0 <= j < k < at.len() implies at[j] < at[k] by {
            if k < at0.len() {
                assert(at[j] == at0[j] && at[k] == at0[k]);
            } else {
                assert(at[j] == at0[j]);
            }
        }
        assert forall|i: int|
            0 <= i < body.len() && (#[trigger] body[i]).picked() is Some implies at.contains(
            i,
        ) by {
            if i < front.len() {
                assert(front[i] == body[i]);
                assert(at0.contains(i));
                let k = choose|k: int| 0 <= k < at0.len() && at0[k] == i;
                assert(at[k] == i);
            } else {
                assert(at[at.len() - 1] == i);
            }
        }
    }
}

/// Counting: a multi extraction returns as many children as the body has
/// entries that hold one.
pub proof fn lemma_matching_count<'a, B: Pick<'a, V>, V>(body: Seq<B>)
    ensures
        matching_indices::<B, V>(body).finite(),
        matching::<B, V>(body).len() == matching_indices::<B, V>(body).len(),
        positions::<B, V>(body).len() == matching::<B, V>(body).len(),
    decreases body.len(),
{
    let here = matching_indices::<B, V>(body);
    if body.len() == 0 {
        assert(here =~= Set::empty());
    } else {
        let front = body.drop_last();
        let before = matching_indices::<B, V>(front);
        lemma_matching_count::<B, V>(front);
        assert forall|i: int| 0 <= i < front.len() implies front[i] == body[i] by {}
        if body.last().picked() is Some {
            assert(here =~= before.insert(body.len() - 1));
        } else {
            assert(here =~= before);
        }
    }
}

/// A listing that meets [`selects`] is the one that [`matching`] gives: the
/// three conditions leave no other.
pub proof fn lemma_selects_unique<'a, B: Pick<'a, V>, V>(body: Seq<B>, out: Seq<V>, at: Seq<int>)
    requires
        selects::<B, V>(body, out, at),
    ensures
        out == matching::<B, V>(body),
        at == positions::<B, V>(body),
    decreases body.len(),
{
    if body.len() == 0 {
        if at.len() > 0 {
            assert(0 <= at[0] < body.len());
        }
        assert(out =~= matching::<B, V>(body));
        assert(at =~= positions::<B, V>(body));
    } else {
        let front = body.drop_last();
        let end = body.len() - 1;
        assert forall|i: int| 0 <= i < front.len() implies front[i] == body[i] by {}
        if body.last().picked() is Some {
            assert(at.contains(end));
            let k = choose|k: int| 0 <= k < at.len() && at[k] == end;
            if k < at.len() - 1 {
                assert(at[k] < at[at.len() - 1]);
                assert(at[at.len() - 1] < body.len());
            }
            let out0 = out.drop_last();
            let at0 = at.drop_last();
            assert forall|k0: int| 0 <= k0 < at0.len() implies 0 <= #[trigger] at0[k0]
                < front.len() && front[at0[k0]].picked() == Some(out0[k0]) by {
                assert(at0[k0] == at[k0]);
                assert(at[k0] < at[at.len() - 1]);
            }
            assert forall|i: int|
                0 <= i < front.len() && (#[trigger] front[i]).picked() is Some implies at0.contains(
                i,
            ) by {
                assert(body[i].picked() is Some);
                assert(at.contains(i));
                let k0 = choose|k0: int| 0 <= k0 < at.len() && at[k0] == i;
                assert(at0[k0] == i);
            }
            assert(selects::<B, V>(front, out0, at0));
            lemma_selects_unique::<B, V>(front, out0, at0);
            assert(out =~= out0.push(out[out.len() - 1]));
            assert(at =~= at0.push(end));
        } else {
            assert forall|k0: int| 0 <= k0 < at.len() implies 0 <= #[trigger] at[k0]
                < front.len() && front[at[k0]].picked() == Some(out[k0]) by {
                assert(body[at[k0]].picked() is Some);
            }
            assert forall|i: int|
                0 <= i < front.len() && (#[trigger] front[i]).picked() is Some implies at.contains(
                i,
            ) by {
                assert(body[i].picked() is Some);
            }
            assert(selects::<B, V>(front, out, at));
            lemma_selects_unique::<B, V>(front, out, at);
        }
    }
}

/// The three cases of a singleton extraction: with no entry of the kind the
/// result is absent; with exactly one it is that entry's child; with two or
/// more it is absent again.
pub proof fn lemma_sole_cases<'a, B: Pick<'a, V>, V>(body: Seq<B>)
    ensures
        (forall|i: int| 0 <= i < body.len() ==> (#[trigger] body[i]).picked() is None) ==> sole::<
            B,
            V,
        >(body) is None,
        forall|i: int|
            0 <= i < body.len() && (#[trigger] body[i]).picked() is Some && (forall|j: int|
                0 <= j < body.len() && j != i ==> (#[trigger] body[j]).picked() is None) ==> sole::<
                B,
                V,
            >(body) == body[i].picked(),
        forall|i: int, j: int|
            0 <= i < j < body.len() && (#[trigger] body[i]).picked() is Some && (
            #[trigger] body[j]).picked() is Some ==> sole::<B, V>(body) is None,
{
    let out = matching::<B, V>(body);
    let at = positions::<B, V>(body);
    lemma_matching_selects::<B, V>(body);
    if forall|i: int| 0 <= i < body.len() ==> (#[trigger] body[i]).picked() is None {
        if out.len() > 0 {
            assert(body[at[0]].picked() is Some);
        }
    }
    assert forall|i: int|
        0 <= i < body.len() && (#[trigger] body[i]).picked() is Some && (forall|j: int|
            0 <= j < body.len() && j != i ==> (#[trigger] body[j]).picked() is None) implies sole::<
        B,
        V,
    >(body) == body[i].picked() by {
        assert(at.contains(i));
        let k = choose|k: int| 0 <= k < at.len() && at[k] == i;
        if at.len() > 1 {
            let other = if k == 0 {
                1
            } else {
                0
            };
            assert(at[other] != at[k]) by {
                if other < k {
                    assert(at[other] < at[k]);
                } else {
                    assert(at[k] < at[other]);
                }
            }
            assert(body[at[other]].picked() is Some);
        }
        assert(k == 0);
    }
    assert forall|i: int, j: int|
        0 <= i < j < body.len() && (#[trigger] body[i]).picked() is Some && (
        #[trigger] body[j]).picked() is Some implies sole::<B, V>(body) is None by {
        assert(at.contains(i));
        assert(at.contains(j));
    }
}

/// A first-match extraction is absent exactly when no entry holds a child of
/// the kind, and otherwise gives the child of the earliest entry that does.
pub proof fn lemma_first_cases<'a, B: Pick<'a, V>, V>(body: Seq<B>)
    ensures
        (forall|i: int| 0 <= i < body.len() ==> (#[trigger] body[i]).picked() is None) <==> first::<
            B,
            V,
        >(body) is None,
        forall|i: int|
            0 <= i < body.len() && (#[trigger] body[i]).picked() is Some && (forall|j: int|
                0 <= j < i ==> (#[trigger] body[j]).picked() is None) ==> first::<B, V>(body)
                == body[i].picked(),
{
    let out = matching::<B, V>(body);
    let at = positions::<B, V>(body);
    lemma_matching_selects::<B, V>(body);
    if out.len() > 0 {
        assert(body[at[0]].picked() is Some);
    } else {
        assert forall|i: int| 0 <= i < body.len() implies (#[trigger] body[i]).picked() is None by {
            if body[i].picked() is Some {
                assert(at.contains(i));
            }
        }
    }
    assert forall|i: int|
        0 <= i < body.len() && (#[trigger] body[i]).picked() is Some && (forall|j: int|
            0 <= j < i ==> (#[trigger] body[j]).picked() is None) implies first::<B, V>(body)
        == body[i].picked() by {
        assert(at.contains(i));
        let k = choose|k: int| 0 <= k < at.len() && at[k] == i;
        if k > 0 {
            assert(at[0] < at[k]);
            assert(body[at[0]].picked() is Some);
        }
    }
}

/// Multi extraction: every child of kind `V`, in body order; an empty list if
/// there is none.
pub fn extract_all<'a, B: Pick<'a, V>, V>(body: &'a Vec<B>) -> (out: Vec<V>)
    ensures
        out@ == matching::<B, V>(body@),
{
    let mut out: Vec<V> = Vec::new();
    let mut i: usize = 0;
    while i < body.len()
        invariant
            i <= body.len(),
            out@ == matching::<B, V>(body@.take(i as int)),
        decreases body.len() - i,
    {
        proof {
            lemma_matching_push::<B, V>(body@.take(i as int), body@[i as int]);
            assert(body@.take(i as int).push(body@[i as int]) == body@.take(i + 1));
        }
        match body[i].pick() {
            Some(v) => out.push(v),
            None => {},
        }
        i += 1;
    }
    assert(body@.take(i as int) == body@);
    out
}

/// Singleton extraction: the child of kind `V` if the body holds exactly one,
/// and nothing if it holds none or more than one.
pub fn extract_singleton<'a, B: Pick<'a, V>, V>(body: &'a Vec<B>) -> (out: Option<V>)
    ensures
        out == sole::<B, V>(body@),
{
    let mut all = extract_all::<B, V>(body);
    let last = all.pop();
    if all.len() == 0 {
        last
    } else {
        None
    }
}

/// First-match extraction: the child of kind `V` of the earliest entry that
/// holds one.
pub fn extract_first<'a, B: Pick<'a, V>, V>(body: &'a Vec<B>) -> (out: Option<V>)
    ensures
        out == first::<B, V>(body@),
{
    let mut i: usize = 0;
    while i < body.len()
        invariant
            i <= body.len(),
            matching::<B, V>(body@.take(i as int)).len() == 0,
        decreases body.len() - i,
    {
        proof {
            lemma_matching_push::<B, V>(body@.take(i as int), body@[i as int]);
            assert(body@.take(i as int).push(body@[i as int]) == body@.take(i + 1));
        }
        match body[i].pick() {
            Some(v) => {
                proof {
                    lemma_first_stays::<B, V>(body@, i + 1);
                }
                return Some(v);
            },
            None => {},
        }
        i += 1;
    }
    assert(body@.take(i as int) == body@);
    None
}

/// Once a prefix of a body holds a child, the first child of the whole body is
/// the first child of that prefix.
pub proof fn lemma_first_stays<'a, B: Pick<'a, V>, V>(body: Seq<B>, n: int)
    requires
        0 <= n <= body.len(),
        matching::<B, V>(body.take(n)).len() > 0,
    ensures
        matching::<B, V>(body).len() > 0,
        matching::<B, V>(body)[0] == matching::<B, V>(body.take(n))[0],
    decreases body.len() - n,
{
    if n < body.len() {
        lemma_matching_push::<B, V>(body.take(n), body[n]);
        assert(body.take(n).push(body[n]) == body.take(n + 1));
        lemma_first_stays::<B, V>(body, n + 1);
    } else {
        assert(body.take(n) == body);
    }
}

} // verus!
