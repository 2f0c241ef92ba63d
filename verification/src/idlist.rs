//! Lists of identifiers that stand for sets: each identifier at most once,
//! in the order in which it first came.

use vstd::prelude::*;

verus! {

/// `ids` with `id` added at the end, unless it is there already.
pub open spec fn with_id(ids: Seq<Seq<char>>, id: Seq<char>) -> Seq<Seq<char>> {
    if ids.contains(id) {
        ids
    } else {
        ids.push(id)
    }
}

/// The members of `ids` that `allowed` holds too, in the order of `ids`.
pub open spec fn keep_listed(ids: Seq<Seq<char>>, allowed: Seq<Seq<char>>) -> Seq<Seq<char>>
    decreases ids.len(),
{
    if ids.len() == 0 {
        Seq::empty()
    } else if allowed.contains(ids.last()) {
        keep_listed(ids.drop_last(), allowed).push(ids.last())
    } else {
        keep_listed(ids.drop_last(), allowed)
    }
}

/// `ids` without repetitions: each member where it first occurs.
pub open spec fn distinct(ids: Seq<Seq<char>>) -> Seq<Seq<char>>
    decreases ids.len(),
{
    if ids.len() == 0 {
        Seq::empty()
    } else {
        with_id(distinct(ids.drop_last()), ids.last())
    }
}

/// `keep_listed` keeps exactly the common members.
pub proof fn lemma_keep_listed_members(ids: Seq<Seq<char>>, allowed: Seq<Seq<char>>, id: Seq<char>)
    ensures
        keep_listed(ids, allowed).contains(id) <==> ids.contains(id) && allowed.contains(id),
    decreases ids.len(),
{
    if ids.len() > 0 {
        let front = ids.drop_last();
        lemma_keep_listed_members(front, allowed, id);
        let kept = keep_listed(front, allowed);
        if ids.contains(id) {
            let i = choose|i: int| 0 <= i < ids.len() && ids[i] == id;
            if i < front.len() {
                assert(front[i] == id);
            }
        }
        if front.contains(id) {
            let i = choose|i: int| 0 <= i < front.len() && front[i] == id;
            assert(ids[i] == id);
        }
        assert(ids[ids.len() - 1] == ids.last());
        if allowed.contains(ids.last()) {
            let out = kept.push(ids.last());
            assert(out[kept.len() as int] == ids.last());
            if kept.contains(id) {
                let i = choose|i: int| 0 <= i < kept.len() && kept[i] == id;
                assert(out[i] == id);
            }
            if out.contains(id) {
                let i = choose|i: int| 0 <= i < out.len() && out[i] == id;
                if i < kept.len() {
                    assert(kept[i] == id);
                }
            }
        }
    }
}

/// `keep_listed` never makes a list longer and keeps it free of repetitions.
pub proof fn lemma_keep_listed_shape(ids: Seq<Seq<char>>, allowed: Seq<Seq<char>>)
    ensures
        keep_listed(ids, allowed).len() <= ids.len(),
        ids.no_duplicates() ==> keep_listed(ids, allowed).no_duplicates(),
    decreases ids.len(),
{
    if ids.len() > 0 {
        let front = ids.drop_last();
        lemma_keep_listed_shape(front, allowed);
        if ids.no_duplicates() {
            assert(front.no_duplicates());
            let kept = keep_listed(front, allowed);
            if kept.contains(ids.last()) {
                lemma_keep_listed_members(front, allowed, ids.last());
                let i = choose|i: int| 0 <= i < front.len() && front[i] == ids.last();
                assert(ids[i] == ids[ids.len() - 1]);
            }
        }
    }
}

/// Adding an identifier keeps a list free of repetitions.
pub proof fn lemma_with_id_shape(ids: Seq<Seq<char>>, id: Seq<char>)
    requires
        ids.no_duplicates(),
    ensures
        with_id(ids, id).no_duplicates(),
        with_id(ids, id).contains(id),
        forall|x: Seq<char>| ids.contains(x) ==> with_id(ids, id).contains(x),
        forall|x: Seq<char>| with_id(ids, id).contains(x) ==> x == id || ids.contains(x),
{
    let out = with_id(ids, id);
    if !ids.contains(id) {
        assert(out[ids.len() as int] == id);
        assert forall|x: Seq<char>| ids.contains(x) implies out.contains(x) by {
            let i = choose|i: int| 0 <= i < ids.len() && ids[i] == x;
            assert(out[i] == x);
        }
        assert forall|x: Seq<char>| out.contains(x) implies x == id || ids.contains(x) by {
            let i = choose|i: int| 0 <= i < out.len() && out[i] == x;
            if i < ids.len() {
                assert(ids[i] == x);
            }
        }
    }
}

/// The members of a list with an identifier added are that identifier
/// and the members of the list.
pub proof fn lemma_with_id_shape_any(ids: Seq<Seq<char>>, id: Seq<char>, x: Seq<char>)
    ensures
        with_id(ids, id).contains(x) <==> x == id || ids.contains(x),
{
    let out = with_id(ids, id);
    if !ids.contains(id) {
        assert(out[ids.len() as int] == id);
        if ids.contains(x) {
            let i = choose|i: int| 0 <= i < ids.len() && ids[i] == x;
            assert(out[i] == x);
        }
        if out.contains(x) {
            let i = choose|i: int| 0 <= i < out.len() && out[i] == x;
            if i < ids.len() {
                assert(ids[i] == x);
            }
        }
    }
}

/// `distinct` has no repetitions and the same members as the list it is made from.
pub proof fn lemma_distinct(ids: Seq<Seq<char>>)
    ensures
        distinct(ids).no_duplicates(),
        forall|x: Seq<char>| distinct(ids).contains(x) <==> ids.contains(x),
    decreases ids.len(),
{
    if ids.len() > 0 {
        let front = ids.drop_last();
        lemma_distinct(front);
        lemma_with_id_shape(distinct(front), ids.last());
        assert forall|x: Seq<char>| distinct(ids).contains(x) <==> ids.contains(x) by {
            if ids.contains(x) {
                let i = choose|i: int| 0 <= i < ids.len() && ids[i] == x;
                if i < front.len() {
                    assert(front[i] == x);
                }
            }
            if front.contains(x) {
                let i = choose|i: int| 0 <= i < front.len() && front[i] == x;
                assert(ids[i] == x);
            }
            assert(ids[ids.len() - 1] == ids.last());
        }
    }
}

/// `distinct` of a list with one more member adds that member to the
/// distinct list, unless it is there already.
pub proof fn lemma_distinct_push(ids: Seq<Seq<char>>, id: Seq<char>)
    ensures
        distinct(ids.push(id)) == with_id(distinct(ids), id),
{
    assert(ids.push(id).drop_last() =~= ids);
}

/// Taking `distinct` twice changes nothing.
pub proof fn lemma_distinct_idempotent(ids: Seq<Seq<char>>)
    ensures
        distinct(distinct(ids)) == distinct(ids),
    decreases ids.len(),
{
    lemma_distinct(ids);
    lemma_distinct_fixed(distinct(ids));
}

/// A list without repetitions is its own `distinct`.
pub proof fn lemma_distinct_fixed(ids: Seq<Seq<char>>)
    requires
        ids.no_duplicates(),
    ensures
        distinct(ids) == ids,
    decreases ids.len(),
{
    if ids.len() > 0 {
        let front = ids.drop_last();
        lemma_distinct_fixed(front);
        if front.contains(ids.last()) {
            let i = choose|i: int| 0 <= i < front.len() && front[i] == ids.last();
            assert(ids[i] == ids[ids.len() - 1]);
        }
        assert(front.push(ids.last()) =~= ids);
    } else {
        assert(ids =~= Seq::empty());
    }
}

/// `distinct` may be taken piece by piece.
pub proof fn lemma_distinct_append(a: Seq<Seq<char>>, b: Seq<Seq<char>>)
    ensures
        distinct(distinct(a) + b) == distinct(a + b),
    decreases b.len(),
{
    if b.len() == 0 {
        assert(distinct(a) + b =~= distinct(a));
        assert(a + b =~= a);
        lemma_distinct_idempotent(a);
    } else {
        lemma_distinct_append(a, b.drop_last());
        assert((distinct(a) + b).drop_last() =~= distinct(a) + b.drop_last());
        assert((a + b).drop_last() =~= a + b.drop_last());
    }
}

/// Whether `list` holds `id`.
pub fn contains_id(list: &Vec<String>, id: &String) -> (r: bool)
    ensures
        r == list.deep_view().contains(id@),
{
    let mut i: usize = 0;
    while i < list.len()
        invariant
            i <= list.len(),
            forall|k: int| 0 <= k < i ==> list.deep_view()[k] != id@,
        decreases list.len() - i,
    {
        if list[i] == *id {
            assert(list.deep_view()[i as int] == id@);
            return true;
        }
        i = i + 1;
    }
    false
}

/// Adds `id` to `list` unless it is there already.
pub fn insert_id(list: &mut Vec<String>, id: String)
    ensures
        final(list).deep_view() == with_id(old(list).deep_view(), id@),
        old(list).deep_view().no_duplicates() ==> final(list).deep_view().no_duplicates(),
{
    proof {
        if list.deep_view().no_duplicates() {
            lemma_with_id_shape(list.deep_view(), id@);
        }
    }
    if !contains_id(list, &id) {
        let ghost before = list.deep_view();
        list.push(id);
        assert(list.deep_view() =~= before.push(id@));
    }
}

/// A copy of `list`.
pub fn clone_ids(list: &Vec<String>) -> (r: Vec<String>)
    ensures
        r@ == list@,
{
    let mut out: Vec<String> = Vec::new();
    let mut i: usize = 0;
    while i < list.len()
        invariant
            i <= list.len(),
            out@ == list@.take(i as int),
        decreases list.len() - i,
    {
        out.push(list[i].clone());
        assert(out@ =~= list@.take(i as int + 1));
        i = i + 1;
    }
    assert(list@.take(list.len() as int) =~= list@);
    out
}

/// Keeps in `list` the identifiers that `allowed` holds too.
pub fn retain_listed(list: &mut Vec<String>, allowed: &Vec<String>)
    ensures
        final(list).deep_view() == keep_listed(old(list).deep_view(), allowed.deep_view()),
        old(list).deep_view().no_duplicates() ==> final(list).deep_view().no_duplicates(),
{
    proof {
        lemma_keep_listed_shape(list.deep_view(), allowed.deep_view());
    }
    let mut out: Vec<String> = Vec::new();
    let mut i: usize = 0;
    assert(out.deep_view() =~= keep_listed(list.deep_view().take(0), allowed.deep_view()));
    while i < list.len()
        invariant
            i <= list.len(),
            out.deep_view() == keep_listed(list.deep_view().take(i as int), allowed.deep_view()),
        decreases list.len() - i,
    {
        let ghost before = out.deep_view();
        let ghost ids = list.deep_view();
        assert(ids.take(i as int + 1).drop_last() =~= ids.take(i as int));
        assert(ids.take(i as int + 1).last() == list[i as int]@);
        if contains_id(allowed, &list[i]) {
            out.push(list[i].clone());
            assert(out.deep_view() =~= before.push(list[i as int]@));
        }
        i = i + 1;
    }
    assert(list.deep_view().take(list.len() as int) =~= list.deep_view());
    *list = out;
}

} // verus!
