//! Operations on lists of identifiers, stated over their character views.

use vstd::prelude::*;
use crate::text::str_eq;
use crate::campaign::id_views;

verus! {

broadcast use vstd::seq_lib::group_seq_properties;

/// Identifiers other than `id`.
pub open spec fn drop_id(ids: Seq<Seq<char>>, id: Seq<char>) -> Seq<Seq<char>> {
    ids.filter(other_than(id))
}

/// The test "is not `id`".
pub open spec fn other_than(id: Seq<char>) -> spec_fn(Seq<char>) -> bool {
    |s: Seq<char>| s != id
}

/// Identifiers that are not empty.
pub open spec fn drop_empty(ids: Seq<Seq<char>>) -> Seq<Seq<char>> {
    ids.filter(|s: Seq<char>| s.len() > 0)
}

pub proof fn lemma_id_views_push(ids: Seq<String>, s: String)
    ensures
        id_views(ids.push(s)) == id_views(ids).push(s@),
{
    ids.lemma_push_map_commute(|x: String| x@, s);
}

pub proof fn lemma_id_views_take(ids: Seq<String>, i: int)
    requires
        0 <= i <= ids.len(),
    ensures
        id_views(ids.take(i)) == id_views(ids).take(i),
        id_views(ids).len() == ids.len(),
{
    assert(id_views(ids.take(i)) =~= id_views(ids).take(i));
}

/// A copy of `ids` without the entries equal to `id`.
pub fn without_id(ids: &Vec<String>, id: &str) -> (r: Vec<String>)
    ensures
        id_views(r@) == drop_id(id_views(ids@), id@),
{
    let mut r: Vec<String> = Vec::new();
    let mut i: usize = 0;
    let ghost pred = other_than(id@);
    while i < ids.len()
        invariant
            i <= ids@.len(),
            pred == other_than(id@),
            id_views(r@) == id_views(ids@.take(i as int)).filter(pred),
        decreases ids@.len() - i,
    {
        let ghost before = r@;
        proof {
            assert(ids@.take(i + 1) =~= ids@.take(i as int).push(ids@[i as int]));
            lemma_id_views_push(ids@.take(i as int), ids@[i as int]);
            id_views(ids@.take(i as int)).lemma_filter_push(ids@[i as int]@, pred);
        }
        if !str_eq(ids[i].as_str(), id) {
            r.push(ids[i].clone());
            proof {
                lemma_id_views_push(before, ids@[i as int]);
            }
        }
        i = i + 1;
    }
    assert(ids@.take(ids@.len() as int) =~= ids@);
    r
}

/// A copy of `ids` without empty entries.
pub fn without_empty(ids: &Vec<String>) -> (r: Vec<String>)
    ensures
        id_views(r@) == drop_empty(id_views(ids@)),
{
    let mut r: Vec<String> = Vec::new();
    let mut i: usize = 0;
    let ghost pred = |s: Seq<char>| s.len() > 0;
    while i < ids.len()
        invariant
            i <= ids@.len(),
            pred == (|s: Seq<char>| s.len() > 0),
            id_views(r@) == id_views(ids@.take(i as int)).filter(pred),
        decreases ids@.len() - i,
    {
        let ghost before = r@;
        proof {
            assert(ids@.take(i + 1) =~= ids@.take(i as int).push(ids@[i as int]));
            lemma_id_views_push(ids@.take(i as int), ids@[i as int]);
            id_views(ids@.take(i as int)).lemma_filter_push(ids@[i as int]@, pred);
        }
        if ids[i].as_str().unicode_len() > 0 {
            r.push(ids[i].clone());
            proof {
                lemma_id_views_push(before, ids@[i as int]);
            }
        }
        i = i + 1;
    }
    assert(ids@.take(ids@.len() as int) =~= ids@);
    r
}

/// The first identifier, or `fallback` when the list is empty.
pub fn first_or(ids: &Vec<String>, fallback: &str) -> (r: String)
    ensures
        r@ == (if ids@.len() > 0 { ids@[0]@ } else { fallback@ }),
{
    if ids.len() > 0 {
        ids[0].clone()
    } else {
        fallback.to_owned()
    }
}

/// The list after putting `id` into slot `slot`: other copies of `id` are
/// dropped first; an occupied slot is overwritten, a slot past the end appends;
/// empty entries are dropped last.
pub open spec fn slot_assigned(ids: Seq<Seq<char>>, slot: int, id: Seq<char>) -> Seq<Seq<char>> {
    let kept = drop_id(ids, id);
    if slot < kept.len() {
        drop_empty(kept.update(slot, id))
    } else {
        drop_empty(kept).push(id)
    }
}

/// The list after clearing slot `slot` (unchanged past the end).
pub open spec fn slot_cleared(ids: Seq<Seq<char>>, slot: int) -> Seq<Seq<char>> {
    if 0 <= slot < ids.len() {
        ids.remove(slot)
    } else {
        ids
    }
}

/// Puts the non-empty identifier `id` into slot `slot` of `ids`.
pub fn assign_slot(ids: &mut Vec<String>, slot: usize, id: &str)
    requires
        id@.len() > 0,
    ensures
        id_views(final(ids)@) == slot_assigned(id_views(old(ids)@), slot as int, id@),
{
    let mut kept = without_id(ids, id);
    if slot < kept.len() {
        let ghost before = kept@;
        kept.set(slot, id.to_owned());
        assert(id_views(kept@) =~= id_views(before).update(slot as int, id@));
        *ids = without_empty(&kept);
    } else {
        let mut r = without_empty(&kept);
        let ghost before = r@;
        r.push(id.to_owned());
        proof {
            lemma_id_views_push(before, r@.last());
        }
        *ids = r;
    }
}

/// Clears slot `slot` of `ids`, if there is one.
pub fn clear_slot(ids: &mut Vec<String>, slot: usize)
    ensures
        id_views(final(ids)@) == slot_cleared(id_views(old(ids)@), slot as int),
{
    if slot < ids.len() {
        let ghost before = ids@;
        let _ = ids.remove(slot);
        assert(id_views(ids@) =~= id_views(before).remove(slot as int));
    }
}

proof fn lemma_filter_keeps_all(s: Seq<Seq<char>>, p: spec_fn(Seq<char>) -> bool)
    requires
        forall|i: int| 0 <= i < s.len() ==> #[trigger] p(s[i]),
    ensures
        s.filter(p) == s,
    decreases s.len(),
{
    broadcast use vstd::seq_lib::group_filter_ensures;
    if s.len() == 0 {
        assert(s.filter(p) =~= s);
    } else {
        lemma_filter_keeps_all(s.drop_last(), p);
        s.drop_last().lemma_filter_push(s.last(), p);
        assert(s.drop_last().push(s.last()) =~= s);
    }
}

proof fn lemma_filter_lacks(s: Seq<Seq<char>>, p: spec_fn(Seq<char>) -> bool, id: Seq<char>)
    requires
        forall|i: int| 0 <= i < s.len() ==> s[i] != id,
    ensures
        forall|i: int| 0 <= i < s.filter(p).len() ==> s.filter(p)[i] != id,
{
    broadcast use vstd::seq_lib::group_filter_ensures;
    assert forall|i: int| 0 <= i < s.filter(p).len() implies s.filter(p)[i] != id by {
        let x = s.filter(p)[i];
        assert(s.filter(p).contains(x));
        s.lemma_filter_contains_rev(p, x);
        let j = choose|j: int| 0 <= j < s.len() && s[j] == x;
        assert(s[j] != id);
    }
}

/// In a list with no empty entries and no copy of `id`, putting `id` into the
/// slot just past the end appends it, and putting it into an occupied slot
/// overwrites that slot alone.
pub proof fn lemma_slot_assigned_in_clean_list(ids: Seq<Seq<char>>, id: Seq<char>)
    requires
        id.len() > 0,
        forall|i: int| 0 <= i < ids.len() ==> (#[trigger] ids[i]).len() > 0,
        !ids.contains(id),
    ensures
        slot_assigned(ids, ids.len() as int, id) == ids.push(id),
        forall|slot: int| 0 <= slot < ids.len() ==> #[trigger] slot_assigned(ids, slot, id) == ids.update(slot, id),
{
    let pd = other_than(id);
    let pe = |s: Seq<char>| s.len() > 0;
    assert forall|i: int| 0 <= i < ids.len() implies #[trigger] pd(ids[i]) by {
        assert(ids.contains(ids[i]));
    }
    lemma_filter_keeps_all(ids, pd);
    assert(drop_id(ids, id) == ids);
    lemma_filter_keeps_all(ids, pe);
    assert(drop_empty(ids) == ids);
    assert forall|slot: int| 0 <= slot < ids.len() implies #[trigger] slot_assigned(ids, slot, id) == ids.update(slot, id) by {
        let u = ids.update(slot, id);
        assert forall|i: int| 0 <= i < u.len() implies #[trigger] pe(u[i]) by {
            if i != slot {
                assert(u[i] == ids[i]);
            }
        }
        lemma_filter_keeps_all(u, pe);
    }
}

/// Putting a non-empty `id` into a slot leaves no empty entries, holds `id`
/// exactly once, at the slot or before it (earlier entries that were empty
/// are gone), and keeps the other entries in their order: all of them when
/// the slot was past the end, all but the one overwritten otherwise.
pub proof fn lemma_slot_assigned_places_once(ids: Seq<Seq<char>>, slot: int, id: Seq<char>)
    requires
        id.len() > 0,
        0 <= slot,
    ensures
        forall|i: int| 0 <= i < slot_assigned(ids, slot, id).len() ==> (#[trigger] slot_assigned(ids, slot, id)[i]).len() > 0,
        exists|p: int|
            0 <= p <= slot && p < slot_assigned(ids, slot, id).len() && slot_assigned(ids, slot, id)[p] == id && forall|i: int|
                0 <= i < slot_assigned(ids, slot, id).len() && i != p ==> #[trigger] slot_assigned(ids, slot, id)[i] != id,
        drop_id(slot_assigned(ids, slot, id), id) == (if slot < drop_id(ids, id).len() {
            drop_empty(drop_id(ids, id).remove(slot))
        } else {
            drop_empty(drop_id(ids, id))
        }),
{
    broadcast use vstd::seq_lib::group_filter_ensures;
    let pe = |s: Seq<char>| s.len() > 0;
    let pd = other_than(id);
    let kept = drop_id(ids, id);
    assert(kept == ids.filter(pd));
    assert forall|i: int| 0 <= i < kept.len() implies kept[i] != id by {
        assert(pd(kept[i]));
    }
    let r = slot_assigned(ids, slot, id);
    let one = seq![id];
    lemma_filter_keeps_all(one, pe);
    assert(Seq::<Seq<char>>::empty().push(id) =~= one);
    Seq::<Seq<char>>::empty().lemma_filter_push(id, pd);
    assert(Seq::<Seq<char>>::empty().filter(pd) =~= Seq::<Seq<char>>::empty());
    if slot < kept.len() {
        let t = kept.take(slot);
        let rest = kept.skip(slot + 1);
        assert(kept.update(slot, id) =~= t + one + rest);
        Seq::filter_distributes_over_add(t + one, rest, pe);
        Seq::filter_distributes_over_add(t, one, pe);
        let a = t.filter(pe);
        let b = rest.filter(pe);
        assert(r == a + one + b);
        lemma_filter_lacks(t, pe, id);
        lemma_filter_lacks(rest, pe, id);
        assert(forall|i: int| 0 <= i < a.len() ==> pe(a[i]));
        assert(forall|i: int| 0 <= i < b.len() ==> pe(b[i]));
        assert forall|i: int| 0 <= i < r.len() implies (#[trigger] r[i]).len() > 0 by {
            if i < a.len() {
                assert(r[i] == a[i]);
            } else if i > a.len() {
                assert(r[i] == b[i - a.len() - 1]);
            }
        }
        let p = a.len() as int;
        assert(r[p] == id);
        assert forall|i: int| 0 <= i < r.len() && i != p implies #[trigger] r[i] != id by {
            if i < a.len() {
                assert(r[i] == a[i]);
            } else {
                assert(r[i] == b[i - a.len() - 1]);
            }
        }
        Seq::filter_distributes_over_add(a + one, b, pd);
        Seq::filter_distributes_over_add(a, one, pd);
        lemma_filter_keeps_all(a, pd);
        lemma_filter_keeps_all(b, pd);
        assert(drop_id(r, id) == r.filter(pd));
        assert(r.filter(pd) =~= a + b);
        assert(kept.remove(slot) =~= t + rest);
        Seq::filter_distributes_over_add(t, rest, pe);
    } else {
        let a = kept.filter(pe);
        assert(r == a.push(id));
        lemma_filter_lacks(kept, pe, id);
        assert(forall|i: int| 0 <= i < a.len() ==> pe(a[i]));
        let p = a.len() as int;
        assert(r[p] == id);
        assert forall|i: int| 0 <= i < r.len() implies (#[trigger] r[i]).len() > 0 by {
            if i < a.len() {
                assert(r[i] == a[i]);
            }
        }
        assert forall|i: int| 0 <= i < r.len() && i != p implies #[trigger] r[i] != id by {
            assert(r[i] == a[i]);
        }
        a.lemma_filter_push(id, pd);
        lemma_filter_keeps_all(a, pd);
        assert(drop_id(r, id) == r.filter(pd));
    }
}

} // verus!
