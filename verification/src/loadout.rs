//! Loadout selection: which hired guards fill the melee and ranged slots.

use vstd::prelude::*;
use crate::guards::GuardKind;
use crate::campaign::{CampaignState, ids_contain, contains_id, id_views};

verus! {

broadcast use vstd::seq_lib::group_seq_properties;

/// Identifiers in `ids` contain `id` exactly when their views do.
pub proof fn lemma_ids_contain_views(ids: Seq<String>, id: Seq<char>)
    ensures
        ids_contain(ids, id) == id_views(ids).contains(id),
{
    if ids_contain(ids, id) {
        let i = choose|i: int| 0 <= i < ids.len() && ids[i]@ == id;
        assert(id_views(ids)[i] == id);
    }
    if id_views(ids).contains(id) {
        let i = choose|i: int| 0 <= i < id_views(ids).len() && id_views(ids)[i] == id;
        assert(ids[i]@ == id);
    }
}

/// Whether a selection entry is kept: its kind is of the wanted class, is
/// hired, and is not already selected.
pub open spec fn selection_keeps(
    id: Seq<char>,
    ranged: bool,
    hired: Seq<String>,
    acc: Seq<Seq<char>>,
) -> bool {
    let kind = GuardKind::spec_from_id(id);
    kind.spec_is_ranged() == ranged && ids_contain(hired, kind.spec_id()) && !acc.contains(
        kind.spec_id(),
    )
}

/// Walks `ids` in order, keeping the kind of each entry that `selection_keeps`,
/// and stops as soon as the selection holds `limit` kinds.
pub open spec fn spec_normalize_selection(
    ids: Seq<Seq<char>>,
    ranged: bool,
    hired: Seq<String>,
    limit: nat,
    acc: Seq<Seq<char>>,
) -> Seq<Seq<char>>
    decreases ids.len(),
{
    if ids.len() == 0 {
        acc
    } else if !selection_keeps(ids[0], ranged, hired, acc) {
        spec_normalize_selection(ids.drop_first(), ranged, hired, limit, acc)
    } else if acc.len() + 1 >= limit {
        acc.push(GuardKind::spec_from_id(ids[0]).spec_id())
    } else {
        spec_normalize_selection(
            ids.drop_first(),
            ranged,
            hired,
            limit,
            acc.push(GuardKind::spec_from_id(ids[0]).spec_id()),
        )
    }
}

/// Every identifier in `sel` is the identifier of a hired kind of the wanted class.
pub open spec fn selection_sound(sel: Seq<Seq<char>>, ranged: bool, hired: Seq<String>) -> bool {
    forall|i: int| 0 <= i < sel.len() ==> #[trigger] names_hired_kind(sel[i], ranged, hired)
}

/// `id` is the identifier of a hired kind of the wanted class.
pub open spec fn names_hired_kind(id: Seq<char>, ranged: bool, hired: Seq<String>) -> bool {
    exists|k: GuardKind|
        #![trigger k.spec_id()]
        k.spec_id() == id && k.spec_is_ranged() == ranged && ids_contain(hired, k.spec_id())
}

/// The walk keeps what it started from, never selects a kind twice, only
/// selects hired kinds of the wanted class, and stops at `limit` (taking one
/// kind even for a zero limit).
pub proof fn lemma_normalize_selection_props(
    ids: Seq<Seq<char>>,
    ranged: bool,
    hired: Seq<String>,
    limit: nat,
    acc: Seq<Seq<char>>,
)
    requires
        acc.no_duplicates(),
        selection_sound(acc, ranged, hired),
        acc.len() < limit || acc.len() == 0,
    ensures
        spec_normalize_selection(ids, ranged, hired, limit, acc).no_duplicates(),
        selection_sound(spec_normalize_selection(ids, ranged, hired, limit, acc), ranged, hired),
        spec_normalize_selection(ids, ranged, hired, limit, acc).len() <= if limit == 0 {
            1
        } else {
            limit
        },
        acc.len() <= spec_normalize_selection(ids, ranged, hired, limit, acc).len(),
        spec_normalize_selection(ids, ranged, hired, limit, acc).subrange(0, acc.len() as int)
            == acc,
    decreases ids.len(),
{
    if ids.len() == 0 {
        assert(acc.subrange(0, acc.len() as int) =~= acc);
    } else if !selection_keeps(ids[0], ranged, hired, acc) {
        lemma_normalize_selection_props(ids.drop_first(), ranged, hired, limit, acc);
    } else {
        let k = GuardKind::spec_from_id(ids[0]);
        let next = acc.push(k.spec_id());
        assert(next.no_duplicates()) by {
            assert forall|i: int, j: int| 0 <= i < next.len() && 0 <= j < next.len() && i != j
                implies next[i] != next[j] by {
                if i == acc.len() {
                    assert(acc.contains(next[j]) || j == acc.len());
                } else if j == acc.len() {
                    assert(acc.contains(next[i]));
                }
            }
        }
        assert(selection_sound(next, ranged, hired)) by {
            assert forall|i: int| 0 <= i < next.len() implies #[trigger] names_hired_kind(next[i], ranged, hired) by {
                if i == acc.len() {
                    assert(k.spec_id() == next[i]);
                } else {
                    assert(next[i] == acc[i]);
                }
            }
        }
        if acc.len() + 1 >= limit {
            assert(next.subrange(0, acc.len() as int) =~= acc);
        } else {
            lemma_normalize_selection_props(ids.drop_first(), ranged, hired, limit, next);
            let r = spec_normalize_selection(ids.drop_first(), ranged, hired, limit, next);
            assert(r.subrange(0, acc.len() as int) =~= r.subrange(0, next.len() as int).subrange(
                0,
                acc.len() as int,
            ));
        }
    }
}

/// One step of the selection walk over the entry `id` (the head of `rest`).
/// Returns whether the selection is complete.
fn select_step(
    selected: &mut Vec<String>,
    id: &str,
    ranged: bool,
    hired: &Vec<String>,
    limit: usize,
    Ghost(rest): Ghost<Seq<Seq<char>>>,
) -> (done: bool)
    requires
        rest.len() > 0,
        rest[0] == id@,
    ensures
        !done ==> spec_normalize_selection(rest, ranged, hired@, limit as nat, id_views(old(selected)@))
            == spec_normalize_selection(rest.drop_first(), ranged, hired@, limit as nat, id_views(final(selected)@)),
        done ==> spec_normalize_selection(rest, ranged, hired@, limit as nat, id_views(old(selected)@))
            == id_views(final(selected)@),
{
    let kind = GuardKind::from_id(id);
    let wanted = kind.is_ranged() == ranged;
    let is_hired = contains_id(hired, kind.id());
    let already = contains_id(selected, kind.id());
    proof {
        lemma_ids_contain_views(selected@, kind.spec_id());
    }
    if wanted && is_hired && !already {
        let ghost before = selected@;
        selected.push(kind.id().to_owned());
        proof {
            crate::ids::lemma_id_views_push(before, selected@.last());
        }
        selected.len() >= limit
    } else {
        false
    }
}

/// Rebuilds a slot selection from `current` and then `fallback`: each entry's
/// kind is kept if it is of the wanted class, hired, and not yet selected,
/// stopping once `limit` kinds are selected.
pub fn normalize_selection(
    current: &Vec<String>,
    fallback: &Vec<String>,
    limit: usize,
    ranged: bool,
    hired: &Vec<String>,
) -> (r: Vec<String>)
    ensures
        id_views(r@) == spec_normalize_selection(
            id_views(current@) + id_views(fallback@),
            ranged,
            hired@,
            limit as nat,
            Seq::empty(),
        ),
{
    let ghost all = id_views(current@) + id_views(fallback@);
    let mut selected: Vec<String> = Vec::new();
    let mut done = false;
    assert(all.skip(0) =~= all);
    assert(id_views(selected@) =~= Seq::<Seq<char>>::empty());
    let mut j: usize = 0;
    while j < current.len() && !done
        invariant
            all == id_views(current@) + id_views(fallback@),
            j <= current@.len(),
            !done ==> spec_normalize_selection(all, ranged, hired@, limit as nat, Seq::empty())
                == spec_normalize_selection(
                all.skip(j as int),
                ranged,
                hired@,
                limit as nat,
                id_views(selected@),
            ),
            done ==> spec_normalize_selection(all, ranged, hired@, limit as nat, Seq::empty())
                == id_views(selected@),
        decreases current@.len() - j, (if done { 0int } else { 1int }),
    {
        proof {
            assert(all.skip(j as int).drop_first() =~= all.skip(j + 1));
        }
        done = select_step(&mut selected, current[j].as_str(), ranged, hired, limit, Ghost(all.skip(j as int)));
        j = j + 1;
    }
    let mut k: usize = 0;
    while k < fallback.len() && !done
        invariant
            all == id_views(current@) + id_views(fallback@),
            k <= fallback@.len(),
            !done ==> current@.len() + k <= all.len(),
            !done ==> spec_normalize_selection(all, ranged, hired@, limit as nat, Seq::empty())
                == spec_normalize_selection(
                all.skip(current@.len() + k),
                ranged,
                hired@,
                limit as nat,
                id_views(selected@),
            ),
            done ==> spec_normalize_selection(all, ranged, hired@, limit as nat, Seq::empty())
                == id_views(selected@),
        decreases fallback@.len() - k, (if done { 0int } else { 1int }),
    {
        proof {
            assert(all.skip(current@.len() + k).drop_first() =~= all.skip(current@.len() + k + 1));
            assert(all.skip(current@.len() + k)[0] == fallback@[k as int]@);
        }
        done = select_step(&mut selected, fallback[k].as_str(), ranged, hired, limit, Ghost(all.skip(current@.len() + k)));
        k = k + 1;
    }
    if !done {
        assert(all.skip(current@.len() + k).len() == 0);
    }
    selected
}

/// The kinds of a list of identifiers.
pub open spec fn kinds_of(ids: Seq<String>) -> Seq<GuardKind> {
    ids.map_values(|s: String| GuardKind::spec_from_id(s@))
}

/// At most `limit` leading elements.
pub open spec fn capped<A>(s: Seq<A>, limit: nat) -> Seq<A> {
    if s.len() <= limit {
        s
    } else {
        s.take(limit as int)
    }
}

/// The canonical identifiers of the entries of `ids` whose kind is of the
/// wanted class and hired, in order (repeats kept).
pub open spec fn selectable(ids: Seq<Seq<char>>, ranged: bool, hired: Seq<String>) -> Seq<Seq<char>>
    decreases ids.len(),
{
    if ids.len() == 0 {
        Seq::empty()
    } else {
        let k = GuardKind::spec_from_id(ids[0]);
        let rest = selectable(ids.drop_first(), ranged, hired);
        if k.spec_is_ranged() == ranged && ids_contain(hired, k.spec_id()) {
            seq![k.spec_id()] + rest
        } else {
            rest
        }
    }
}

/// The first occurrence of each entry of `s` not already in `seen`, in order.
pub open spec fn first_each<A>(s: Seq<A>, seen: Seq<A>) -> Seq<A>
    decreases s.len(),
{
    if s.len() == 0 {
        Seq::empty()
    } else if seen.contains(s[0]) {
        first_each(s.drop_first(), seen)
    } else {
        seq![s[0]] + first_each(s.drop_first(), seen.push(s[0]))
    }
}

/// The first `limit` entries of `s` (one for a zero limit), or all of them.
pub open spec fn capped_to<A>(s: Seq<A>, limit: nat) -> Seq<A> {
    let cap = if limit == 0 { 1 } else { limit };
    if s.len() > cap {
        s.take(cap as int)
    } else {
        s
    }
}

proof fn lemma_selection_walk(ids: Seq<Seq<char>>, ranged: bool, hired: Seq<String>, limit: nat, acc: Seq<Seq<char>>)
    requires
        acc.len() < (if limit == 0 { 1 } else { limit }),
    ensures
        spec_normalize_selection(ids, ranged, hired, limit, acc) == capped_to(
            acc + first_each(selectable(ids, ranged, hired), acc),
            limit,
        ),
    decreases ids.len(),
{
    if ids.len() == 0 {
        assert(acc + first_each(selectable(ids, ranged, hired), acc) =~= acc);
    } else {
        let k = GuardKind::spec_from_id(ids[0]);
        let c = k.spec_id();
        let rest = ids.drop_first();
        let sel_rest = selectable(rest, ranged, hired);
        if !(k.spec_is_ranged() == ranged && ids_contain(hired, c)) {
            lemma_selection_walk(rest, ranged, hired, limit, acc);
        } else if acc.contains(c) {
            let sel = selectable(ids, ranged, hired);
            assert(sel == seq![c] + sel_rest);
            assert(sel[0] == c);
            assert(sel.drop_first() =~= sel_rest);
            lemma_selection_walk(rest, ranged, hired, limit, acc);
        } else {
            let sel = selectable(ids, ranged, hired);
            assert(sel[0] == c);
            assert(sel.drop_first() =~= sel_rest);
            let next = acc.push(c);
            let tail = first_each(sel_rest, next);
            assert(first_each(sel, acc) == seq![c] + tail);
            assert(acc + (seq![c] + tail) =~= next + tail);
            if acc.len() + 1 >= limit {
                let full = next + tail;
                let cap: nat = if limit == 0 { 1 } else { limit };
                assert(next.len() == cap);
                if full.len() > cap {
                    assert(full.take(cap as int) =~= next);
                } else {
                    assert(full =~= next);
                }
            } else {
                lemma_selection_walk(rest, ranged, hired, limit, next);
            }
        }
    }
}

/// The loadout selection is the canonical identifiers of the hired kinds
/// of the wanted class, in order, with repeats dropped, cut to the limit
/// (one for a zero limit).
pub proof fn lemma_selection_is_filter_dedup_take(ids: Seq<Seq<char>>, ranged: bool, hired: Seq<String>, limit: nat)
    ensures
        spec_normalize_selection(ids, ranged, hired, limit, Seq::empty()) == capped_to(
            first_each(selectable(ids, ranged, hired), Seq::empty()),
            limit,
        ),
{
    lemma_selection_walk(ids, ranged, hired, limit, Seq::empty());
    assert(Seq::<Seq<char>>::empty() + first_each(selectable(ids, ranged, hired), Seq::empty()) =~= first_each(
        selectable(ids, ranged, hired),
        Seq::empty(),
    ));
}

/// Walking a selection that is already sound, followed by one more entry,
/// gives the selection back, provided the extra entry would not be taken or
/// the selection is full.
pub proof fn lemma_selection_reproduces(
    xs: Seq<Seq<char>>,
    rest: Seq<Seq<char>>,
    acc: Seq<Seq<char>>,
    e: Seq<char>,
    ranged: bool,
    hired: Seq<String>,
    limit: nat,
)
    requires
        limit >= 1,
        xs == acc + rest,
        xs.no_duplicates(),
        selection_sound(xs, ranged, hired),
        xs.len() <= limit,
        acc.len() < limit,
        !selection_keeps(e, ranged, hired, xs) || xs.len() == limit,
    ensures
        spec_normalize_selection(rest + seq![e], ranged, hired, limit, acc) == xs,
    decreases rest.len(),
{
    let ids = rest + seq![e];
    if rest.len() == 0 {
        assert(acc =~= xs);
        assert(ids =~= seq![e]);
        assert(ids.drop_first() =~= Seq::<Seq<char>>::empty());
        assert(spec_normalize_selection(ids.drop_first(), ranged, hired, limit, acc) == acc);
    } else {
        let x = rest[0];
        let p = acc.len() as int;
        assert(x == xs[p]);
        assert(names_hired_kind(xs[p], ranged, hired));
        let k = choose|k: GuardKind| k.spec_id() == x && k.spec_is_ranged() == ranged && ids_contain(hired, k.spec_id());
        crate::guards::lemma_guard_id_round_trip(k);
        assert(!acc.contains(x)) by {
            if acc.contains(x) {
                let j = choose|j: int| 0 <= j < acc.len() && acc[j] == x;
                assert(xs[j] == xs[p]);
            }
        }
        assert(ids[0] == x);
        assert(ids.drop_first() =~= rest.drop_first() + seq![e]);
        let next = acc.push(x);
        if acc.len() + 1 >= limit {
            assert(next =~= xs);
        } else {
            assert(xs =~= next + rest.drop_first());
            lemma_selection_reproduces(xs, rest.drop_first(), next, e, ranged, hired, limit);
        }
    }
}

/// A walk whose last entry is a hired kind of the wanted class either
/// takes that kind or fills the selection.
pub proof fn lemma_selection_takes_last(
    ys: Seq<Seq<char>>,
    e: Seq<char>,
    ranged: bool,
    hired: Seq<String>,
    limit: nat,
    acc: Seq<Seq<char>>,
)
    requires
        limit >= 1,
        acc.len() < limit,
        GuardKind::spec_from_id(e).spec_is_ranged() == ranged,
        ids_contain(hired, GuardKind::spec_from_id(e).spec_id()),
    ensures
        spec_normalize_selection(ys + seq![e], ranged, hired, limit, acc).contains(GuardKind::spec_from_id(e).spec_id())
            || spec_normalize_selection(ys + seq![e], ranged, hired, limit, acc).len() == limit,
    decreases ys.len(),
{
    let ids = ys + seq![e];
    let c = GuardKind::spec_from_id(e).spec_id();
    if ys.len() == 0 {
        assert(ids =~= seq![e]);
        assert(ids.drop_first() =~= Seq::<Seq<char>>::empty());
        assert(spec_normalize_selection(ids.drop_first(), ranged, hired, limit, acc) == acc);
        if !acc.contains(c) {
            assert(acc.push(c)[acc.len() as int] == c);
            assert(spec_normalize_selection(ids.drop_first(), ranged, hired, limit, acc.push(c)) == acc.push(c));
        }
    } else {
        assert(ids[0] == ys[0]);
        assert(ids.drop_first() =~= ys.drop_first() + seq![e]);
        let k0 = GuardKind::spec_from_id(ys[0]);
        if selection_keeps(ys[0], ranged, hired, acc) && acc.len() + 1 < limit {
            lemma_selection_takes_last(ys.drop_first(), e, ranged, hired, limit, acc.push(k0.spec_id()));
        } else if !selection_keeps(ys[0], ranged, hired, acc) {
            lemma_selection_takes_last(ys.drop_first(), e, ranged, hired, limit, acc);
        }
    }
}

impl CampaignState {
    /// The kind of the leading melee guard.
    pub fn selected_guard_kind(&self) -> (r: GuardKind)
        ensures
            r == GuardKind::spec_from_id(self.selected_guard_id@),
    {
        GuardKind::from_id(self.selected_guard_id.as_str())
    }
}

impl CampaignState {
    /// Kinds of the wanted class that are hired.
    pub open spec fn kind_pick(&self, ranged: bool) -> spec_fn(GuardKind) -> bool {
        |k: GuardKind| k.spec_is_ranged() == ranged && self.spec_is_guard_hired(k)
    }

    /// The melee guards that take the field: the kinds of the melee selection
    /// that are melee and hired, in order, at most one per guard slot.
    pub fn selected_melee_kinds(&self) -> (r: Vec<GuardKind>)
        ensures
            r@ == capped(
                kinds_of(self.selected_guard_ids@).filter(self.kind_pick(false)),
                self.spec_chassis_slot_count() as nat,
            ),
    {
        self.selected_kinds(&self.selected_guard_ids, false, self.guard_slot_count())
    }

    /// The ranged guards that take the field: the kinds of the ranged selection
    /// that are ranged and hired, in order, at most one per ranged slot.
    pub fn selected_ranged_kinds(&self) -> (r: Vec<GuardKind>)
        ensures
            r@ == capped(
                kinds_of(self.selected_ranged_ids@).filter(self.kind_pick(true)),
                self.spec_ranged_slot_count() as nat,
            ),
    {
        self.selected_kinds(&self.selected_ranged_ids, true, self.ranged_slot_count())
    }

    fn selected_kinds(&self, ids: &Vec<String>, ranged: bool, limit: usize) -> (r: Vec<GuardKind>)
        ensures
            r@ == capped(
                kinds_of(ids@).filter(self.kind_pick(ranged)),
                limit as nat,
            ),
    {
        let ghost pick = self.kind_pick(ranged);
        let mut r: Vec<GuardKind> = Vec::new();
        let mut i: usize = 0;
        while i < ids.len()
            invariant
                i <= ids@.len(),
                pick == self.kind_pick(ranged),
                r@ == capped(kinds_of(ids@.take(i as int)).filter(pick), limit as nat),
            decreases ids@.len() - i,
        {
            let kind = GuardKind::from_id(ids[i].as_str());
            let ghost f = kinds_of(ids@.take(i as int)).filter(pick);
            proof {
                assert(ids@.take(i + 1) =~= ids@.take(i as int).push(ids@[i as int]));
                ids@.take(i as int).lemma_push_map_commute(|s: String| GuardKind::spec_from_id(s@), ids@[i as int]);
                kinds_of(ids@.take(i as int)).lemma_filter_push(kind, pick);
            }
            if kind.is_ranged() == ranged && self.is_guard_hired(kind) {
                if r.len() < limit {
                    r.push(kind);
                    assert(r@ =~= capped(f.push(kind), limit as nat));
                } else {
                    assert(f.push(kind).take(limit as int) =~= f.take(limit as int));
                }
            }
            i = i + 1;
        }
        assert(ids@.take(ids@.len() as int) =~= ids@);
        r
    }
}

} // verus!
