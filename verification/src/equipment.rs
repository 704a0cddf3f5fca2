//! Carriage equipment slots: which installed upgrades ride on the carriage.

use vstd::prelude::*;
use crate::kinds::CarriageEquipment;
use crate::campaign::{CampaignState, contains_id, id_views};
use crate::ids::{assign_slot, clear_slot, slot_assigned, slot_cleared};

verus! {

broadcast use vstd::seq_lib::group_seq_properties;

/// Snapshot of the carriage for drawing: level, equipped items, ranged slots.
#[derive(Debug, Clone, Copy)]
pub struct CarriageVisual {
    pub chassis_level: u32,
    pub iron_plating: bool,
    pub reinforced_wheels: bool,
    pub cargo_straps: bool,
    pub repair_kit: bool,
    pub ranged_slots: usize,
}

impl CarriageVisual {
    pub fn from_campaign(campaign: &CampaignState) -> (r: Self)
        ensures
            r.chassis_level == campaign.carriage_level,
            r.iron_plating == campaign.spec_is_equipment_equipped(CarriageEquipment::IronPlating),
            r.reinforced_wheels == campaign.spec_is_equipment_equipped(CarriageEquipment::ReinforcedWheels),
            r.cargo_straps == campaign.spec_is_equipment_equipped(CarriageEquipment::CargoStraps),
            r.repair_kit == campaign.spec_is_equipment_equipped(CarriageEquipment::RepairKit),
            r.ranged_slots as int == campaign.spec_ranged_slot_count(),
    {
        CarriageVisual {
            chassis_level: campaign.carriage_level,
            iron_plating: campaign.is_equipment_equipped(CarriageEquipment::IronPlating),
            reinforced_wheels: campaign.is_equipment_equipped(CarriageEquipment::ReinforcedWheels),
            cargo_straps: campaign.is_equipment_equipped(CarriageEquipment::CargoStraps),
            repair_kit: campaign.is_equipment_equipped(CarriageEquipment::RepairKit),
            ranged_slots: campaign.ranged_slot_count(),
        }
    }
}

/// Walks `ids` keeping the first occurrence of each available equipment and
/// stops once `limit` are kept.
pub open spec fn spec_normalize_equipment(
    c: EquipmentLevels,
    ids: Seq<Seq<char>>,
    limit: nat,
    acc: Seq<Seq<char>>,
) -> Seq<Seq<char>>
    decreases ids.len(),
{
    if ids.len() == 0 {
        acc
    } else {
        let e = CarriageEquipment::spec_from_id(ids[0]);
        if !c.available(e) || acc.contains(e.spec_id()) {
            spec_normalize_equipment(c, ids.drop_first(), limit, acc)
        } else if acc.len() + 1 >= limit {
            acc.push(e.spec_id())
        } else {
            spec_normalize_equipment(c, ids.drop_first(), limit, acc.push(e.spec_id()))
        }
    }
}

/// `id` is the identifier of equipment that the levels install.
pub open spec fn installed_id(c: EquipmentLevels, id: Seq<char>) -> bool {
    exists|e: CarriageEquipment| #![trigger e.spec_id()] e.spec_id() == id && c.available(e)
}

proof fn lemma_equipment_walk(c: EquipmentLevels, ids: Seq<Seq<char>>, limit: nat, acc: Seq<Seq<char>>)
    requires
        acc.no_duplicates(),
        forall|i: int| 0 <= i < acc.len() ==> #[trigger] installed_id(c, acc[i]),
        acc.len() < (if limit == 0 { 1 } else { limit }),
    ensures
        spec_normalize_equipment(c, ids, limit, acc).no_duplicates(),
        forall|i: int| 0 <= i < spec_normalize_equipment(c, ids, limit, acc).len() ==> #[trigger] installed_id(
            c,
            spec_normalize_equipment(c, ids, limit, acc)[i],
        ),
        spec_normalize_equipment(c, ids, limit, acc).len() <= (if limit == 0 { 1 } else { limit }),
    decreases ids.len(),
{
    if ids.len() > 0 {
        let e = CarriageEquipment::spec_from_id(ids[0]);
        if !c.available(e) || acc.contains(e.spec_id()) {
            lemma_equipment_walk(c, ids.drop_first(), limit, acc);
        } else {
            let next = acc.push(e.spec_id());
            assert forall|i: int, j: int| 0 <= i < next.len() && 0 <= j < next.len() && i != j implies next[i]
                != next[j] by {
                if i == acc.len() {
                    assert(acc.contains(next[j]));
                } else if j == acc.len() {
                    assert(acc.contains(next[i]));
                }
            }
            assert forall|i: int| 0 <= i < next.len() implies #[trigger] installed_id(c, next[i]) by {
                if i == acc.len() {
                    assert(e.spec_id() == next[i]);
                } else {
                    assert(next[i] == acc[i]);
                }
            }
            if acc.len() + 1 < limit {
                lemma_equipment_walk(c, ids.drop_first(), limit, next);
            }
        }
    }
}

/// The rebuilt equipment selection names installed equipment only, none
/// twice, and no more than the slots allow (one for a zero limit).
pub proof fn lemma_equipment_selection_sound(c: EquipmentLevels, ids: Seq<Seq<char>>, limit: nat)
    ensures
        spec_normalize_equipment(c, ids, limit, Seq::empty()).no_duplicates(),
        forall|i: int| 0 <= i < spec_normalize_equipment(c, ids, limit, Seq::empty()).len() ==> #[trigger] installed_id(
            c,
            spec_normalize_equipment(c, ids, limit, Seq::empty())[i],
        ),
        spec_normalize_equipment(c, ids, limit, Seq::empty()).len() <= (if limit == 0 { 1 } else { limit }),
{
    lemma_equipment_walk(c, ids, limit, Seq::empty());
}

/// Walking an equipment selection that is already sound, followed by one
/// more entry, gives the selection back, provided the extra entry would
/// not be taken or the selection is full.
pub proof fn lemma_equipment_reproduces(
    c: EquipmentLevels,
    xs: Seq<Seq<char>>,
    rest: Seq<Seq<char>>,
    acc: Seq<Seq<char>>,
    e: Seq<char>,
    limit: nat,
)
    requires
        limit >= 1,
        xs == acc + rest,
        xs.no_duplicates(),
        forall|i: int| 0 <= i < xs.len() ==> #[trigger] installed_id(c, xs[i]),
        xs.len() <= limit,
        acc.len() < limit,
        !(c.available(CarriageEquipment::spec_from_id(e)) && !xs.contains(CarriageEquipment::spec_from_id(e).spec_id()))
            || xs.len() == limit,
    ensures
        spec_normalize_equipment(c, rest + seq![e], limit, acc) == xs,
    decreases rest.len(),
{
    let ids = rest + seq![e];
    if rest.len() == 0 {
        assert(acc =~= xs);
        assert(ids =~= seq![e]);
        assert(ids.drop_first() =~= Seq::<Seq<char>>::empty());
        assert(spec_normalize_equipment(c, ids.drop_first(), limit, acc) == acc);
    } else {
        let x = rest[0];
        let p = acc.len() as int;
        assert(x == xs[p]);
        assert(installed_id(c, xs[p]));
        let q = choose|q: CarriageEquipment| q.spec_id() == x && c.available(q);
        crate::kinds::lemma_equipment_id_round_trip(q);
        assert(!acc.contains(x)) by {
            if acc.contains(x) {
                let j = choose|j: int| 0 <= j < acc.len() && acc[j] == x;
                assert(xs[j] == xs[p]);
            }
        }
        assert(ids[0] == x);
        assert(ids.drop_first() =~= rest.drop_first() + seq![e]);
        let next = acc.push(x);
        if acc.len() + 1 >= limit {
            assert(next =~= xs);
        } else {
            assert(xs =~= next + rest.drop_first());
            lemma_equipment_reproduces(c, xs, rest.drop_first(), next, e, limit);
        }
    }
}

/// An equipment walk whose last entry is installed either takes it or
/// fills the selection.
pub proof fn lemma_equipment_takes_last(c: EquipmentLevels, ys: Seq<Seq<char>>, e: Seq<char>, limit: nat, acc: Seq<Seq<char>>)
    requires
        limit >= 1,
        acc.len() < limit,
        c.available(CarriageEquipment::spec_from_id(e)),
    ensures
        spec_normalize_equipment(c, ys + seq![e], limit, acc).contains(CarriageEquipment::spec_from_id(e).spec_id())
            || spec_normalize_equipment(c, ys + seq![e], limit, acc).len() == limit,
    decreases ys.len(),
{
    let ids = ys + seq![e];
    let d = CarriageEquipment::spec_from_id(e).spec_id();
    if ys.len() == 0 {
        assert(ids =~= seq![e]);
        assert(ids.drop_first() =~= Seq::<Seq<char>>::empty());
        assert(spec_normalize_equipment(c, ids.drop_first(), limit, acc) == acc);
        if !acc.contains(d) {
            assert(acc.push(d)[acc.len() as int] == d);
            assert(spec_normalize_equipment(c, ids.drop_first(), limit, acc.push(d)) == acc.push(d));
        }
    } else {
        assert(ids[0] == ys[0]);
        assert(ids.drop_first() =~= ys.drop_first() + seq![e]);
        let q = CarriageEquipment::spec_from_id(ys[0]);
        if !c.available(q) || acc.contains(q.spec_id()) {
            lemma_equipment_takes_last(c, ys.drop_first(), e, limit, acc);
        } else if acc.len() + 1 < limit {
            lemma_equipment_takes_last(c, ys.drop_first(), e, limit, acc.push(q.spec_id()));
        }
    }
}

/// The upgrade levels that decide which equipment is installed.
pub ghost struct EquipmentLevels {
    pub carriage_level: u32,
    pub wheel_level: u32,
    pub cargo_level: u32,
    pub repair_level: u32,
}

impl EquipmentLevels {
    pub open spec fn available(self, e: CarriageEquipment) -> bool {
        match e {
            CarriageEquipment::IronPlating => self.carriage_level > 0,
            CarriageEquipment::ReinforcedWheels => self.wheel_level > 0,
            CarriageEquipment::CargoStraps => self.cargo_level > 0,
            CarriageEquipment::RepairKit => self.repair_level > 0,
        }
    }
}

impl CampaignState {
    pub open spec fn equipment_levels(&self) -> EquipmentLevels {
        EquipmentLevels {
            carriage_level: self.carriage_level,
            wheel_level: self.wheel_level,
            cargo_level: self.cargo_level,
            repair_level: self.repair_level,
        }
    }

    pub open spec fn spec_equipment_slot_count(&self) -> int {
        if self.carriage_level >= 4 {
            4
        } else if self.carriage_level >= 2 {
            3
        } else {
            2
        }
    }

    pub open spec fn spec_equipment_level(&self, equipment: CarriageEquipment) -> u32 {
        match equipment {
            CarriageEquipment::IronPlating => self.carriage_level,
            CarriageEquipment::ReinforcedWheels => self.wheel_level,
            CarriageEquipment::CargoStraps => self.cargo_level,
            CarriageEquipment::RepairKit => self.repair_level,
        }
    }

    pub open spec fn spec_is_equipment_available(&self, equipment: CarriageEquipment) -> bool {
        self.spec_equipment_level(equipment) > 0
    }

    pub open spec fn spec_is_equipment_equipped(&self, equipment: CarriageEquipment) -> bool {
        id_views(self.selected_equipment_ids@).contains(equipment.spec_id())
            && self.spec_is_equipment_available(equipment)
    }

    /// Equipment slots by carriage level: 2, 3 from level two, 4 from level four.
    pub fn carriage_equipment_slot_count(&self) -> (r: usize)
        ensures
            r as int == self.spec_equipment_slot_count(),
    {
        if self.carriage_level >= 4 {
            4
        } else if self.carriage_level >= 2 {
            3
        } else {
            2
        }
    }

    /// The upgrade level backing a piece of equipment.
    pub fn equipment_level(&self, equipment: CarriageEquipment) -> (r: u32)
        ensures
            r == self.spec_equipment_level(equipment),
    {
        match equipment {
            CarriageEquipment::IronPlating => self.carriage_level,
            CarriageEquipment::ReinforcedWheels => self.wheel_level,
            CarriageEquipment::CargoStraps => self.cargo_level,
            CarriageEquipment::RepairKit => self.repair_level,
        }
    }

    pub fn is_equipment_available(&self, equipment: CarriageEquipment) -> (r: bool)
        ensures
            r == self.spec_is_equipment_available(equipment),
    {
        self.equipment_level(equipment) > 0
    }

    pub fn is_equipment_equipped(&self, equipment: CarriageEquipment) -> (r: bool)
        ensures
            r == self.spec_is_equipment_equipped(equipment),
    {
        let selected = contains_id(&self.selected_equipment_ids, equipment.id());
        proof {
            crate::loadout::lemma_ids_contain_views(self.selected_equipment_ids@, equipment.spec_id());
        }
        selected && self.is_equipment_available(equipment)
    }

    /// Puts the equipment `id` names into slot `slot`, if the slot exists and
    /// the equipment is installed; otherwise nothing changes.
    pub fn assign_equipment_slot(&mut self, slot: usize, id: &str)
        ensures
            ({
                let e = CarriageEquipment::spec_from_id(id@);
                if slot < old(self).spec_equipment_slot_count() && old(self).spec_is_equipment_available(e) {
                    id_views(final(self).selected_equipment_ids@) == slot_assigned(
                        id_views(old(self).selected_equipment_ids@),
                        slot as int,
                        e.spec_id(),
                    )
                } else {
                    final(self).selected_equipment_ids@ == old(self).selected_equipment_ids@
                }
            }),
            final(self).selected_equipment_ids@.len() >= 0,
            *final(self) == (CampaignState { selected_equipment_ids: final(self).selected_equipment_ids, ..*old(self) }),
    {
        let equipment = CarriageEquipment::from_id(id);
        if slot >= self.carriage_equipment_slot_count() || !self.is_equipment_available(equipment) {
            return;
        }
        proof {
            reveal_strlit("carriage_armor");
            reveal_strlit("reinforced_wheels");
            reveal_strlit("cargo_straps");
            reveal_strlit("repair_kit");
        }
        assign_slot(&mut self.selected_equipment_ids, slot, equipment.id());
    }

    /// Empties slot `slot`, if there is one.
    pub fn clear_equipment_slot(&mut self, slot: usize)
        ensures
            id_views(final(self).selected_equipment_ids@) == slot_cleared(
                id_views(old(self).selected_equipment_ids@),
                slot as int,
            ),
            *final(self) == (CampaignState { selected_equipment_ids: final(self).selected_equipment_ids, ..*old(self) }),
    {
        clear_slot(&mut self.selected_equipment_ids, slot);
    }

    /// One step of the equipment walk over the entry `id` (the head of `rest`).
    fn equipment_step(
        &self,
        selected: &mut Vec<String>,
        id: &str,
        limit: usize,
        Ghost(rest): Ghost<Seq<Seq<char>>>,
    ) -> (done: bool)
        requires
            rest.len() > 0,
            rest[0] == id@,
        ensures
            !done ==> spec_normalize_equipment(self.equipment_levels(), rest, limit as nat, id_views(old(selected)@))
                == spec_normalize_equipment(self.equipment_levels(), rest.drop_first(), limit as nat, id_views(final(selected)@)),
            done ==> spec_normalize_equipment(self.equipment_levels(), rest, limit as nat, id_views(old(selected)@))
                == id_views(final(selected)@),
    {
        let e = CarriageEquipment::from_id(id);
        let already = contains_id(selected, e.id());
        proof {
            crate::loadout::lemma_ids_contain_views(selected@, e.spec_id());
        }
        if self.is_equipment_available(e) && !already {
            let ghost before = selected@;
            selected.push(e.id().to_owned());
            proof {
                crate::ids::lemma_id_views_push(before, selected@.last());
            }
            selected.len() >= limit
        } else {
            false
        }
    }

    /// Rebuilds the equipment selection from the current one followed by iron
    /// plating: the first copy of each installed item, up to the slot count.
    pub fn normalize_equipment(&mut self)
        ensures
            id_views(final(self).selected_equipment_ids@) == spec_normalize_equipment(
                old(self).equipment_levels(),
                id_views(old(self).selected_equipment_ids@) + seq!["carriage_armor"@],
                old(self).spec_equipment_slot_count() as nat,
                Seq::empty(),
            ),
            *final(self) == (CampaignState { selected_equipment_ids: final(self).selected_equipment_ids, ..*old(self) }),
    {
        let slot_count = self.carriage_equipment_slot_count();
        let ghost all = id_views(self.selected_equipment_ids@) + seq!["carriage_armor"@];
        let ghost c = self.equipment_levels();
        let fallback = crate::campaign::default_selected_equipment_ids();
        assert(id_views(self.selected_equipment_ids@) + id_views(fallback@) =~= all);
        let mut selected: Vec<String> = Vec::new();
        let mut done = false;
        assert(all.skip(0) =~= all);
        assert(id_views(selected@) =~= Seq::<Seq<char>>::empty());
        let n: usize = self.selected_equipment_ids.len();
        let mut j: usize = 0;
        while j < n && !done
            invariant
                c == self.equipment_levels(),
                n == self.selected_equipment_ids@.len(),
                all == id_views(self.selected_equipment_ids@) + id_views(fallback@),
                id_views(fallback@) == seq!["carriage_armor"@],
                j <= n,
                all.len() == n + 1,
                !done ==> spec_normalize_equipment(c, all, slot_count as nat, Seq::empty())
                    == spec_normalize_equipment(c, all.skip(j as int), slot_count as nat, id_views(selected@)),
                done ==> spec_normalize_equipment(c, all, slot_count as nat, Seq::empty()) == id_views(selected@),
            decreases n - j, (if done { 0int } else { 1int }),
        {
            assert(all.skip(j as int)[0] == self.selected_equipment_ids@[j as int]@);
            assert(all.skip(j as int).drop_first() =~= all.skip(j + 1));
            done = self.equipment_step(&mut selected, self.selected_equipment_ids[j].as_str(), slot_count, Ghost(all.skip(j as int)));
            j = j + 1;
        }
        if !done {
            assert(all.skip(n as int)[0] == fallback@[0]@);
            assert(all.skip(n as int).drop_first() =~= all.skip(n + 1));
            assert(all.skip(n + 1).len() == 0);
            done = self.equipment_step(&mut selected, fallback[0].as_str(), slot_count, Ghost(all.skip(n as int)));
        }
        self.selected_equipment_ids = selected;
    }
}

} // verus!
