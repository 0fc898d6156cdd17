use vstd::multiset::Multiset;
use vstd::prelude::*;

use crate::delay_heap::{
    Entry, in_removal_order, insert_position, lemma_insert_keeps_order, lemma_insert_position, precedes,
};

verus! {

/// The entries after inserting each of `es` in turn into `s`, as `push` does.
pub open spec fn after_inserts<T>(s: Seq<Entry<T>>, es: Seq<Entry<T>>) -> Seq<Entry<T>>
    decreases es.len(),
{
    if es.len() == 0 {
        s
    } else {
        after_inserts(s.insert(insert_position(s, es[0].ready), es[0]), es.drop_first())
    }
}

/// The entries after `k` removals from `s`, each taking the front, as
/// `pop_first` does.
pub open spec fn after_removals<T>(s: Seq<Entry<T>>, k: nat) -> Seq<Entry<T>>
    decreases k,
{
    if k == 0 || s.len() == 0 {
        s
    } else {
        after_removals(s.drop_first(), (k - 1) as nat)
    }
}

/// The entries that `k` removals from `s` hand out, in the order they leave.
pub open spec fn removed<T>(s: Seq<Entry<T>>, k: nat) -> Seq<Entry<T>>
    decreases k,
{
    if k == 0 || s.len() == 0 {
        Seq::empty()
    } else {
        seq![s[0]] + removed(s.drop_first(), (k - 1) as nat)
    }
}

proof fn lemma_after_inserts<T>(s: Seq<Entry<T>>, es: Seq<Entry<T>>)
    requires
        in_removal_order(s),
    ensures
        in_removal_order(after_inserts(s, es)),
        after_inserts(s, es).to_multiset() == s.to_multiset().add(es.to_multiset()),
        after_inserts(s, es).len() == s.len() + es.len(),
    decreases es.len(),
{
    broadcast use vstd::multiset::group_multiset_axioms;

    if es.len() == 0 {
        vstd::seq_lib::to_multiset_len(es);
        vstd::multiset::lemma_multiset_empty_len(es.to_multiset());
        assert(s.to_multiset().add(es.to_multiset()) =~= s.to_multiset());
    } else {
        let e = es[0];
        let p = insert_position(s, e.ready);
        lemma_insert_position(s, e.ready);
        lemma_insert_keeps_order(s, e);
        let t = s.insert(p, e);
        let rest = es.drop_first();
        lemma_after_inserts(t, rest);
        vstd::seq_lib::to_multiset_insert(s, p, e);
        vstd::seq_lib::to_multiset_remove(es, 0);
        assert(es.remove(0) =~= rest);
        assert(es.to_multiset().count(e) > 0) by {
            vstd::seq_lib::to_multiset_contains(es, e);
            assert(es.contains(e)) by {
                assert(es[0] == e);
            }
        }
        assert(rest.to_multiset().insert(e) =~= es.to_multiset());
        assert(t.to_multiset().add(rest.to_multiset()) =~= s.to_multiset().add(es.to_multiset()));
    }
}

proof fn lemma_removals<T>(s: Seq<Entry<T>>, k: nat)
    requires
        k <= s.len(),
    ensures
        after_removals(s, k) == s.skip(k as int),
        removed(s, k) == s.take(k as int),
    decreases k,
{
    if k > 0 {
        lemma_removals(s.drop_first(), (k - 1) as nat);
        assert(s.drop_first().skip(k - 1) =~= s.skip(k as int));
        assert(seq![s[0]] + s.drop_first().take(k - 1) =~= s.take(k as int));
    } else {
        assert(s.skip(0) =~= s);
        assert(s.take(0) =~= Seq::<Entry<T>>::empty());
    }
}

/// Whatever the order of insertion, removals come in ascending order of
/// ready time: after inserting `es` into an empty store, the removal that
/// comes `k`-th hands out the `k`-th entry of the store, and each entry is
/// ready no later than every entry that leaves after it (strictly earlier
/// where the ready times differ).
pub proof fn lemma_removal_order<T>(es: Seq<Entry<T>>)
    ensures
        ({
            let s = after_inserts(Seq::empty(), es);
            &&& s.len() == es.len()
            &&& s.to_multiset() == es.to_multiset()
            &&& forall|k: int| 0 <= k < s.len() ==> #[trigger] after_removals(s, k as nat)[0] == s[k]
            &&& forall|i: int, j: int| 0 <= i < j < s.len() ==> #[trigger] s[i].ready <= #[trigger] s[j].ready
        }),
{
    broadcast use vstd::multiset::group_multiset_axioms;

    let s = after_inserts(Seq::empty(), es);
    lemma_after_inserts(Seq::empty(), es);
    vstd::seq_lib::to_multiset_len(Seq::<Entry<T>>::empty());
    vstd::multiset::lemma_multiset_empty_len(Seq::<Entry<T>>::empty().to_multiset());
    assert(Multiset::<Entry<T>>::empty().add(es.to_multiset()) =~= es.to_multiset());
    assert forall|k: int| 0 <= k < s.len() implies #[trigger] after_removals(s, k as nat)[0] == s[k] by {
        lemma_removals(s, k as nat);
    }
    assert forall|i: int, j: int| 0 <= i < j < s.len() implies #[trigger] s[i].ready <= #[trigger] s[j].ready by {
        assert(precedes(s[i], s[j]));
    }
}

/// No entry is lost or doubled: inserting `es` into an empty store and then
/// removing as many entries as were inserted hands out exactly the inserted
/// entries, each as often as it was inserted.
pub proof fn lemma_no_loss_or_duplication<T>(es: Seq<Entry<T>>)
    ensures
        removed(after_inserts(Seq::empty(), es), es.len()).to_multiset() == es.to_multiset(),
{
    broadcast use vstd::multiset::group_multiset_axioms;

    let s = after_inserts(Seq::empty(), es);
    lemma_after_inserts(Seq::empty(), es);
    lemma_removals(s, es.len());
    assert(s.take(es.len() as int) =~= s);
    vstd::seq_lib::to_multiset_len(Seq::<Entry<T>>::empty());
    vstd::multiset::lemma_multiset_empty_len(Seq::<Entry<T>>::empty().to_multiset());
    assert(Multiset::<Entry<T>>::empty().add(es.to_multiset()) =~= es.to_multiset());
}

proof fn lemma_insert_position_range<T>(s: Seq<Entry<T>>, ready: u64)
    ensures
        0 <= insert_position(s, ready) <= s.len(),
    decreases s.len(),
{
    if s.len() > 0 {
        lemma_insert_position_range(s.drop_last(), ready);
    }
}

proof fn lemma_after_inserts_len<T>(s: Seq<Entry<T>>, es: Seq<Entry<T>>)
    ensures
        after_inserts(s, es).len() == s.len() + es.len(),
    decreases es.len(),
{
    if es.len() > 0 {
        lemma_insert_position_range(s, es[0].ready);
        lemma_after_inserts_len(s.insert(insert_position(s, es[0].ready), es[0]), es.drop_first());
    }
}

/// Draining: after inserting `k` entries into an empty store and removing `k`
/// entries, the store is empty.
pub proof fn lemma_drain_to_empty<T>(es: Seq<Entry<T>>)
    ensures
        after_removals(after_inserts(Seq::empty(), es), es.len()).len() == 0,
{
    let s = after_inserts(Seq::empty(), es);
    lemma_after_inserts_len(Seq::empty(), es);
    lemma_removals(s, es.len());
}

} // verus!
