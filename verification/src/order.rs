//! Listing content in its authored order: entries sorted by their `order`
//! number, entries with equal numbers kept in list order.

use vstd::prelude::*;
use crate::chassis::ChassisDef;
use crate::missions::MissionDef;

verus! {

/// Entry `a` is listed before entry `b`: a lower order number, or the same
/// number and an earlier place in the list.
pub open spec fn listed_before(keys: Seq<u32>, a: int, b: int) -> bool {
    keys[a] < keys[b] || (keys[a] == keys[b] && a < b)
}

/// `r` lists every position of `keys` once, in authored order.
pub open spec fn is_listing(keys: Seq<u32>, r: Seq<usize>) -> bool {
    &&& r.len() == keys.len()
    &&& forall|k: int| 0 <= k < r.len() ==> #[trigger] r[k] < keys.len()
    &&& forall|k: int, l: int| 0 <= k < l < r.len() ==> listed_before(keys, #[trigger] r[k] as int, #[trigger] r[l] as int)
}

/// Positions of `keys` in authored order (a stable sort by key).
pub fn listing_order(keys: &Vec<u32>) -> (r: Vec<usize>)
    ensures
        is_listing(keys@, r@),
{
    let n = keys.len();
    let mut r: Vec<usize> = Vec::new();
    let mut i: usize = 0;
    while i < n
        invariant
            n == keys@.len(),
            i <= n,
            r@.len() == i,
            forall|k: int| 0 <= k < r@.len() ==> #[trigger] r@[k] < i,
            forall|k: int, l: int| 0 <= k < l < r@.len() ==> listed_before(keys@, #[trigger] r@[k] as int, #[trigger] r@[l] as int),
        decreases n - i,
    {
        let key = keys[i];
        let mut pos: usize = 0;
        while pos < r.len() && keys[r[pos]] <= key
            invariant
                n == keys@.len(),
                i < n,
                key == keys@[i as int],
                pos <= r@.len(),
                forall|k: int| 0 <= k < r@.len() ==> #[trigger] r@[k] < i,
                forall|m: int| 0 <= m < pos ==> keys@[#[trigger] r@[m] as int] <= key,
            decreases r@.len() - pos,
        {
            pos = pos + 1;
        }
        let ghost old_r = r@;
        proof {
            assert forall|m: int| pos <= m < old_r.len() implies keys@[#[trigger] old_r[m] as int] > key by {
                if m > pos {
                    assert(listed_before(keys@, old_r[pos as int] as int, old_r[m] as int));
                }
            }
        }
        r.insert(pos, i);
        proof {
            assert(r@ == old_r.insert(pos as int, i));
            assert forall|k: int, l: int| 0 <= k < l < r@.len() implies listed_before(
                keys@,
                #[trigger] r@[k] as int,
                #[trigger] r@[l] as int,
            ) by {
                if k < pos && l < pos {
                    assert(listed_before(keys@, old_r[k] as int, old_r[l] as int));
                } else if k < pos && l == pos {
                    assert(keys@[old_r[k] as int] <= key);
                } else if k < pos && l > pos {
                    assert(listed_before(keys@, old_r[k] as int, old_r[l - 1] as int));
                } else if k == pos {
                    assert(keys@[old_r[l - 1] as int] > key);
                } else {
                    assert(listed_before(keys@, old_r[k - 1] as int, old_r[l - 1] as int));
                }
            }
        }
        i = i + 1;
    }
    r
}

/// Order numbers of the missions, in list order.
pub open spec fn mission_orders(missions: Seq<MissionDef>) -> Seq<u32> {
    missions.map_values(|m: MissionDef| m.order)
}

/// Order numbers of the chassis, in list order.
pub open spec fn chassis_orders(defs: Seq<ChassisDef>) -> Seq<u32> {
    defs.map_values(|c: ChassisDef| c.order)
}

/// The missions in authored order.
pub fn missions_ordered<'a>(missions: &'a [MissionDef]) -> (r: Vec<&'a MissionDef>)
    ensures
        exists|p: Seq<usize>|
            is_listing(mission_orders(missions@), p) && r@.len() == p.len() && forall|k: int|
                0 <= k < p.len() ==> *#[trigger] r@[k] == missions@[p[k] as int],
{
    let mut keys: Vec<u32> = Vec::new();
    let mut i: usize = 0;
    while i < missions.len()
        invariant
            i <= missions@.len(),
            keys@ == mission_orders(missions@).take(i as int),
        decreases missions@.len() - i,
    {
        keys.push(missions[i].order);
        i = i + 1;
        assert(keys@ =~= mission_orders(missions@).take(i as int));
    }
    assert(keys@ =~= mission_orders(missions@));
    let p = listing_order(&keys);
    let mut r: Vec<&'a MissionDef> = Vec::new();
    let mut k: usize = 0;
    while k < p.len()
        invariant
            is_listing(mission_orders(missions@), p@),
            k <= p@.len(),
            r@.len() == k,
            forall|j: int| 0 <= j < k ==> *#[trigger] r@[j] == missions@[p@[j] as int],
        decreases p@.len() - k,
    {
        r.push(&missions[p[k]]);
        k = k + 1;
    }
    r
}

/// The chassis in authored order.
pub fn chassis_ordered<'a>(defs: &'a [ChassisDef]) -> (r: Vec<&'a ChassisDef>)
    ensures
        exists|p: Seq<usize>|
            is_listing(chassis_orders(defs@), p) && r@.len() == p.len() && forall|k: int|
                0 <= k < p.len() ==> *#[trigger] r@[k] == defs@[p[k] as int],
{
    let mut keys: Vec<u32> = Vec::new();
    let mut i: usize = 0;
    while i < defs.len()
        invariant
            i <= defs@.len(),
            keys@ == chassis_orders(defs@).take(i as int),
        decreases defs@.len() - i,
    {
        keys.push(defs[i].order);
        i = i + 1;
        assert(keys@ =~= chassis_orders(defs@).take(i as int));
    }
    assert(keys@ =~= chassis_orders(defs@));
    let p = listing_order(&keys);
    let mut r: Vec<&'a ChassisDef> = Vec::new();
    let mut k: usize = 0;
    while k < p.len()
        invariant
            is_listing(chassis_orders(defs@), p@),
            k <= p@.len(),
            r@.len() == k,
            forall|j: int| 0 <= j < k ==> *#[trigger] r@[j] == defs@[p@[j] as int],
        decreases p@.len() - k,
    {
        r.push(&defs[p[k]]);
        k = k + 1;
    }
    r
}

/// Position `j` appears in `r`.
pub open spec fn names_position(r: Seq<usize>, j: int) -> bool {
    exists|k: int| 0 <= k < r.len() && r[k] as int == j
}

/// A listing names every position: it is a reordering of the whole list.
pub proof fn lemma_listing_covers(keys: Seq<u32>, r: Seq<usize>)
    requires
        is_listing(keys, r),
    ensures
        forall|j: int| 0 <= j < keys.len() ==> #[trigger] names_position(r, j),
{
    broadcast use vstd::seq_lib::seq_to_set_is_finite;
    let q = r.map_values(|x: usize| x as int);
    assert forall|k: int, l: int| 0 <= k < q.len() && 0 <= l < q.len() && k != l implies q[k] != q[l] by {
        if k < l {
            assert(listed_before(keys, r[k] as int, r[l] as int));
        } else {
            assert(listed_before(keys, r[l] as int, r[k] as int));
        }
    }
    assert(q.no_duplicates());
    q.unique_seq_to_set();
    let range = vstd::set_lib::set_int_range(0, keys.len() as int);
    vstd::set_lib::lemma_int_range(0, keys.len() as int);
    assert forall|x: int| q.to_set().contains(x) implies range.contains(x) by {
        let k = choose|k: int| 0 <= k < q.len() && q[k] == x;
        assert(r[k] < keys.len());
    }
    vstd::set_lib::lemma_subset_equality(q.to_set(), range);
    assert forall|j: int| 0 <= j < keys.len() implies #[trigger] names_position(r, j) by {
        assert(range.contains(j));
        assert(q.to_set().contains(j));
        let k = choose|k: int| 0 <= k < q.len() && q[k] == j;
        assert(r[k] as int == j);
    }
}

/// The starter chassis heads the authored listing of the chassis.
pub proof fn lemma_starter_heads_listing(defs: Seq<ChassisDef>, p: Seq<usize>)
    requires
        is_listing(chassis_orders(defs), p),
        defs.len() > 0,
    ensures
        crate::chassis::spec_default_chassis_id(defs) == defs[p[0] as int].id@,
{
    let keys = chassis_orders(defs);
    lemma_listing_covers(keys, p);
    let f = p[0] as int;
    assert forall|j: int| 0 <= j < defs.len() implies #[trigger] crate::chassis::precedes(defs, f, j) by {
        assert(names_position(p, j));
        let k = choose|k: int| 0 <= k < p.len() && p[k] as int == j;
        if k > 0 {
            assert(listed_before(keys, p[0] as int, p[k] as int));
        }
    }
    assert(crate::chassis::first_in_order(defs, f));
    let c = choose|c: int| crate::chassis::first_in_order(defs, c);
    crate::chassis::lemma_first_in_order_unique(defs, f, c);
}

/// The mission a new campaign selects heads the authored listing of the
/// missions.
pub proof fn lemma_first_mission_heads_listing(missions: Seq<MissionDef>, p: Seq<usize>, i: int)
    requires
        is_listing(mission_orders(missions), p),
        crate::missions::mission_first_in_order(missions, i),
    ensures
        p[0] as int == i,
{
    let keys = mission_orders(missions);
    lemma_listing_covers(keys, p);
    assert(names_position(p, i));
    let k = choose|k: int| 0 <= k < p.len() && p[k] as int == i;
    if k > 0 {
        assert(listed_before(keys, p[0] as int, p[k] as int));
        assert(missions[i].order < missions[p[0] as int].order || (missions[i].order == missions[p[0] as int].order
            && i <= p[0]));
    }
}

} // verus!
