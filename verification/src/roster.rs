//! Repairing a loaded campaign: the hired roster, loadout selections, star
//! records, route choices and equipment are brought back into shape.

use vstd::prelude::*;
use crate::guards::GuardKind;
use crate::campaign::{CampaignState, ids_contain, contains_id, id_views, default_guard_id, default_selected_guard_ids,
    default_selected_ranged_ids};
use crate::loadout::{lemma_ids_contain_views, lemma_normalize_selection_props, lemma_selection_reproduces,
    lemma_selection_takes_last, names_hired_kind, normalize_selection,
    selection_sound, spec_normalize_selection};
use crate::equipment::spec_normalize_equipment;
use crate::keyed::KeyedList;
use crate::text::str_eq;

verus! {

broadcast use vstd::seq_lib::group_seq_properties;

/// `[k]` when `keep`, else nothing.
pub open spec fn id_if(keep: bool, k: GuardKind) -> Seq<Seq<char>> {
    if keep {
        seq![k.spec_id()]
    } else {
        Seq::empty()
    }
}

/// The hired roster after repair, in roster order: the swordsman and the
/// archer always, every other kind exactly when it was hired.
pub open spec fn spec_normalized_hired(hired: Seq<String>) -> Seq<Seq<char>> {
    seq![GuardKind::Swordsman.spec_id()] + id_if(ids_contain(hired, GuardKind::ShieldGuard.spec_id()), GuardKind::ShieldGuard)
        + id_if(ids_contain(hired, GuardKind::Spearman.spec_id()), GuardKind::Spearman)
        + seq![GuardKind::Archer.spec_id()]
        + id_if(ids_contain(hired, GuardKind::CrossbowGuard.spec_id()), GuardKind::CrossbowGuard)
        + id_if(ids_contain(hired, GuardKind::Mage.spec_id()), GuardKind::Mage)
}

/// Stars kept for a kind after repair: clamped to 1..=3 when the kind is hired
/// and has stars recorded, else none.
pub open spec fn spec_normalized_stars(stars: u8, hired: bool) -> u8 {
    if hired && stars >= 1 {
        if stars > 3 { 3 } else { stars }
    } else {
        0
    }
}

fn push_if_hired(out: &mut Vec<String>, hired: &Vec<String>, kind: GuardKind)
    ensures
        id_views(final(out)@) == id_views(old(out)@) + id_if(ids_contain(hired@, kind.spec_id()), kind),
{
    if contains_id(hired, kind.id()) {
        let ghost before = out@;
        out.push(kind.id().to_owned());
        proof {
            crate::ids::lemma_id_views_push(before, out@.last());
        }
    } else {
        assert(id_views(out@) =~= id_views(out@) + Seq::<Seq<char>>::empty());
    }
}

impl CampaignState {
    /// The melee selection seed after repair: the selected guard if its kind
    /// is hired in the repaired roster, else the swordsman.
    pub open spec fn spec_repaired_selected_guard(&self, hired: Seq<String>) -> Seq<char> {
        if ids_contain(hired, GuardKind::spec_from_id(self.selected_guard_id@).spec_id()) {
            self.selected_guard_id@
        } else {
            "swordsman"@
        }
    }

    fn normalize_hired(&mut self)
        ensures
            id_views(final(self).hired_guard_ids@) == spec_normalized_hired(old(self).hired_guard_ids@),
            *final(self) == (CampaignState { hired_guard_ids: final(self).hired_guard_ids, ..*old(self) }),
    {
        let mut hired: Vec<String> = Vec::new();
        hired.push(default_guard_id());
        proof {
            assert(id_views(hired@) =~= seq![GuardKind::Swordsman.spec_id()]);
        }
        push_if_hired(&mut hired, &self.hired_guard_ids, GuardKind::ShieldGuard);
        push_if_hired(&mut hired, &self.hired_guard_ids, GuardKind::Spearman);
        let ghost before = hired@;
        hired.push(GuardKind::Archer.id().to_owned());
        proof {
            crate::ids::lemma_id_views_push(before, hired@.last());
        }
        push_if_hired(&mut hired, &self.hired_guard_ids, GuardKind::CrossbowGuard);
        push_if_hired(&mut hired, &self.hired_guard_ids, GuardKind::Mage);
        self.hired_guard_ids = hired;
    }

    fn normalize_selections(&mut self)
        ensures
            ({
                let sel = spec_normalize_selection(
                    id_views(old(self).selected_guard_ids@) + seq![
                        old(self).spec_repaired_selected_guard(old(self).hired_guard_ids@),
                    ],
                    false,
                    old(self).hired_guard_ids@,
                    old(self).spec_chassis_slot_count() as nat,
                    Seq::empty(),
                );
                id_views(final(self).selected_guard_ids@) == if sel.len() > 0 {
                    sel
                } else {
                    seq!["swordsman"@]
                }
            }),
            final(self).selected_guard_ids@.len() > 0,
            final(self).selected_guard_id@ == final(self).selected_guard_ids@[0]@,
            ({
                let sel = spec_normalize_selection(
                    id_views(old(self).selected_ranged_ids@) + seq!["archer"@],
                    true,
                    old(self).hired_guard_ids@,
                    old(self).spec_ranged_slot_count() as nat,
                    Seq::empty(),
                );
                id_views(final(self).selected_ranged_ids@) == if sel.len() > 0 {
                    sel
                } else {
                    seq!["archer"@]
                }
            }),
            *final(self) == (CampaignState {
                selected_guard_id: final(self).selected_guard_id,
                selected_guard_ids: final(self).selected_guard_ids,
                selected_ranged_ids: final(self).selected_ranged_ids,
                ..*old(self)
            }),
    {
        let selected = GuardKind::from_id(self.selected_guard_id.as_str());
        if !self.is_guard_hired(selected) {
            self.selected_guard_id = default_guard_id();
        }
        let mut seed: Vec<String> = Vec::new();
        seed.push(self.selected_guard_id.clone());
        assert(id_views(seed@) =~= seq![seed@[0]@]);
        let slots = self.guard_slot_count();
        self.selected_guard_ids = normalize_selection(&self.selected_guard_ids, &seed, slots, false, &self.hired_guard_ids);
        if self.selected_guard_ids.len() == 0 {
            self.selected_guard_ids = default_selected_guard_ids();
        }
        self.selected_guard_id = self.selected_guard_ids[0].clone();

        let ranged_slots = self.ranged_slot_count();
        let fallback = default_selected_ranged_ids();
        self.selected_ranged_ids = normalize_selection(
            &self.selected_ranged_ids,
            &fallback,
            ranged_slots,
            true,
            &self.hired_guard_ids,
        );
        if self.selected_ranged_ids.len() == 0 {
            self.selected_ranged_ids = default_selected_ranged_ids();
        }
    }

    fn normalize_stars(&mut self)
        ensures
            forall|k: GuardKind| #[trigger] final(self).guard_stars@[k.spec_position()] == spec_normalized_stars(
                old(self).guard_stars@[k.spec_position()],
                ids_contain(old(self).hired_guard_ids@, k.spec_id()),
            ),
            *final(self) == (CampaignState { guard_stars: final(self).guard_stars, ..*old(self) }),
    {
        let kinds = GuardKind::all();
        let mut stars: [u8; 6] = self.guard_stars;
        let mut i: usize = 0;
        while i < 6
            invariant
                i <= 6,
                kinds@ == GuardKind::spec_all(),
                forall|k: GuardKind| k.spec_position() < i ==> #[trigger] stars@[k.spec_position()]
                    == spec_normalized_stars(
                    old(self).guard_stars@[k.spec_position()],
                    ids_contain(self.hired_guard_ids@, k.spec_id()),
                ),
                forall|k: GuardKind| k.spec_position() >= i ==> #[trigger] stars@[k.spec_position()]
                    == old(self).guard_stars@[k.spec_position()],
            decreases 6 - i,
        {
            let kind = kinds[i];
            proof {
                crate::guards::lemma_guard_index(kind);
            }
            let current = stars[i];
            let kept: u8 = if self.is_guard_hired(kind) && current >= 1 {
                if current > 3 { 3 } else { current }
            } else {
                0
            };
            stars[i] = kept;
            i = i + 1;
        }
        self.guard_stars = stars;
    }

    /// `self` is the campaign `before` repaired by `normalize`.
    pub open spec fn is_normalized_from(&self, before: CampaignState, first_mission_id: Option<&str>) -> bool {
        &&& self.wf()
        &&& self.selected_mission_id@ == (if before.selected_mission_id@.len() == 0 {
                match first_mission_id {
                    Some(id) => id@,
                    None => "muddy_road"@,
                }
            } else {
                before.selected_mission_id@
            })
        &&& self.selected_route_choices@ == KeyedList::<String>::nonempty_part(before.selected_route_choices@)
        &&& id_views(self.hired_guard_ids@) == spec_normalized_hired(before.hired_guard_ids@)
        &&& ({
                let sel = spec_normalize_selection(
                    id_views(before.selected_guard_ids@) + seq![
                        before.spec_repaired_selected_guard(self.hired_guard_ids@),
                    ],
                    false,
                    self.hired_guard_ids@,
                    before.spec_chassis_slot_count() as nat,
                    Seq::empty(),
                );
                id_views(self.selected_guard_ids@) == if sel.len() > 0 {
                    sel
                } else {
                    seq!["swordsman"@]
                }
            })
        &&& self.selected_guard_ids@.len() > 0
        &&& self.selected_guard_id@ == self.selected_guard_ids@[0]@
        &&& ({
                let sel = spec_normalize_selection(
                    id_views(before.selected_ranged_ids@) + seq!["archer"@],
                    true,
                    self.hired_guard_ids@,
                    before.spec_ranged_slot_count() as nat,
                    Seq::empty(),
                );
                id_views(self.selected_ranged_ids@) == if sel.len() > 0 {
                    sel
                } else {
                    seq!["archer"@]
                }
            })
        &&& forall|k: GuardKind| #[trigger] self.guard_stars@[k.spec_position()] == spec_normalized_stars(
                before.guard_stars@[k.spec_position()],
                ids_contain(self.hired_guard_ids@, k.spec_id()),
            )
        &&& id_views(self.selected_equipment_ids@) == spec_normalize_equipment(
                before.equipment_levels(),
                id_views(before.selected_equipment_ids@) + seq!["carriage_armor"@],
                before.spec_equipment_slot_count() as nat,
                Seq::empty(),
            )
        &&& *self == (CampaignState {
                selected_mission_id: self.selected_mission_id,
                selected_route_choices: self.selected_route_choices,
                hired_guard_ids: self.hired_guard_ids,
                selected_guard_id: self.selected_guard_id,
                selected_guard_ids: self.selected_guard_ids,
                selected_ranged_ids: self.selected_ranged_ids,
                guard_stars: self.guard_stars,
                selected_equipment_ids: self.selected_equipment_ids,
                ..before
            })
    }

    /// Brings a loaded campaign back into shape: a selected mission, no empty
    /// route choices, a roster that always holds the swordsman and the archer,
    /// melee and ranged selections of hired kinds that fit the slots, stars only
    /// for hired kinds and within 1..=3, and an equipment selection of
    /// installed items.
    pub fn normalize(&mut self, first_mission_id: Option<&str>)
        requires
            old(self).wf(),
        ensures
            final(self).is_normalized_from(*old(self), first_mission_id),
    {
        if self.selected_mission_id.as_str().unicode_len() == 0 {
            self.selected_mission_id = match first_mission_id {
                Some(id) => id.to_owned(),
                None => "muddy_road".to_owned(),
            };
        }
        self.selected_route_choices.retain_nonempty();

        self.normalize_hired();

        self.normalize_selections();
        self.normalize_stars();
        self.normalize_equipment();
    }
}

/// A repaired campaign is consistent: the swordsman and the archer are
/// hired; the melee and ranged selections each name hired kinds of their
/// class, none twice, at least one and no more than their slots allow; no
/// kind has more than three stars, and only hired kinds have any; and the equipment selection names
/// installed equipment only, none twice, within its slots.
pub proof fn lemma_repaired_campaign_is_consistent(
    before: CampaignState,
    after: CampaignState,
    first_mission_id: Option<&str>,
)
    requires
        after.is_normalized_from(before, first_mission_id),
    ensures
        ids_contain(after.hired_guard_ids@, "swordsman"@),
        ids_contain(after.hired_guard_ids@, "archer"@),
        id_views(after.selected_guard_ids@).no_duplicates(),
        selection_sound(id_views(after.selected_guard_ids@), false, after.hired_guard_ids@),
        1 <= after.selected_guard_ids@.len() <= before.spec_chassis_slot_count(),
        id_views(after.selected_ranged_ids@).no_duplicates(),
        selection_sound(id_views(after.selected_ranged_ids@), true, after.hired_guard_ids@),
        1 <= after.selected_ranged_ids@.len() <= before.spec_ranged_slot_count(),
        forall|k: GuardKind| #[trigger] after.guard_stars@[k.spec_position()] <= 3,
        forall|k: GuardKind| #[trigger] after.guard_stars@[k.spec_position()] != 0 ==> ids_contain(
            after.hired_guard_ids@,
            k.spec_id(),
        ),
        id_views(after.selected_equipment_ids@).no_duplicates(),
        forall|i: int| 0 <= i < after.selected_equipment_ids@.len() ==> #[trigger] crate::equipment::installed_id(
            before.equipment_levels(),
            after.selected_equipment_ids@[i]@,
        ),
        after.selected_equipment_ids@.len() <= before.spec_equipment_slot_count(),
{
    crate::equipment::lemma_equipment_selection_sound(
        before.equipment_levels(),
        id_views(before.selected_equipment_ids@) + seq!["carriage_armor"@],
        before.spec_equipment_slot_count() as nat,
    );
    assert forall|i: int| 0 <= i < after.selected_equipment_ids@.len() implies #[trigger] crate::equipment::installed_id(
        before.equipment_levels(),
        after.selected_equipment_ids@[i]@,
    ) by {
        assert(id_views(after.selected_equipment_ids@)[i] == after.selected_equipment_ids@[i]@);
    }
    assert(id_views(after.selected_equipment_ids@).len() == after.selected_equipment_ids@.len());
    let hired = after.hired_guard_ids@;
    let b = before.hired_guard_ids@;
    let pre = seq![GuardKind::Swordsman.spec_id()] + id_if(ids_contain(b, GuardKind::ShieldGuard.spec_id()), GuardKind::ShieldGuard)
        + id_if(ids_contain(b, GuardKind::Spearman.spec_id()), GuardKind::Spearman);
    assert(spec_normalized_hired(b)[0] == "swordsman"@);
    assert(spec_normalized_hired(b)[pre.len() as int] == "archer"@);
    assert(id_views(hired)[0] == "swordsman"@);
    assert(id_views(hired)[pre.len() as int] == "archer"@);
    lemma_ids_contain_views(hired, "swordsman"@);
    lemma_ids_contain_views(hired, "archer"@);
    assert(GuardKind::Swordsman.spec_id() == "swordsman"@);
    assert(GuardKind::Archer.spec_id() == "archer"@);

    let melee = spec_normalize_selection(
        id_views(before.selected_guard_ids@) + seq![before.spec_repaired_selected_guard(hired)],
        false,
        hired,
        before.spec_chassis_slot_count() as nat,
        Seq::empty(),
    );
    lemma_normalize_selection_props(
        id_views(before.selected_guard_ids@) + seq![before.spec_repaired_selected_guard(hired)],
        false,
        hired,
        before.spec_chassis_slot_count() as nat,
        Seq::empty(),
    );
    if melee.len() == 0 {
        assert(names_hired_kind(id_views(after.selected_guard_ids@)[0], false, hired));
    }
    assert(id_views(after.selected_guard_ids@).len() == after.selected_guard_ids@.len());

    let ranged = spec_normalize_selection(
        id_views(before.selected_ranged_ids@) + seq!["archer"@],
        true,
        hired,
        before.spec_ranged_slot_count() as nat,
        Seq::empty(),
    );
    lemma_normalize_selection_props(
        id_views(before.selected_ranged_ids@) + seq!["archer"@],
        true,
        hired,
        before.spec_ranged_slot_count() as nat,
        Seq::empty(),
    );
    if ranged.len() == 0 {
        assert(names_hired_kind(id_views(after.selected_ranged_ids@)[0], true, hired));
    }
    assert(id_views(after.selected_ranged_ids@).len() == after.selected_ranged_ids@.len());
}

proof fn lemma_hired_idempotent(h0: Seq<String>, h1: Seq<String>)
    requires
        id_views(h1) == spec_normalized_hired(h0),
    ensures
        spec_normalized_hired(h1) == spec_normalized_hired(h0),
{
    assert forall|a: GuardKind, b: GuardKind| a.spec_id() == b.spec_id() implies a == b by {
        crate::guards::lemma_guard_ids_distinct(a, b);
    }
    let ks = seq![GuardKind::ShieldGuard, GuardKind::Spearman, GuardKind::CrossbowGuard, GuardKind::Mage];
    assert forall|i: int| 0 <= i < 4 implies ids_contain(h1, (#[trigger] ks[i]).spec_id()) == ids_contain(h0, ks[i].spec_id()) by {
        let k = ks[i];
        lemma_ids_contain_views(h1, k.spec_id());
        assert(seq![GuardKind::Swordsman.spec_id()].contains(k.spec_id()) == (GuardKind::Swordsman.spec_id() == k.spec_id())) by {
            if seq![GuardKind::Swordsman.spec_id()].contains(k.spec_id()) {
                assert(seq![GuardKind::Swordsman.spec_id()][0] == k.spec_id());
            }
        }
        assert(seq![GuardKind::Archer.spec_id()].contains(k.spec_id()) == (GuardKind::Archer.spec_id() == k.spec_id())) by {
            if seq![GuardKind::Archer.spec_id()].contains(k.spec_id()) {
                assert(seq![GuardKind::Archer.spec_id()][0] == k.spec_id());
            }
        }
        assert forall|j: GuardKind, b: bool| #[trigger] id_if(b, j).contains(k.spec_id()) == (b && j == k) by {
            if id_if(b, j).contains(k.spec_id()) {
                assert(id_if(b, j)[0] == k.spec_id());
            }
            if b && j == k {
                assert(id_if(b, j)[0] == k.spec_id());
            }
        }
    }
    assert(ks[0] == GuardKind::ShieldGuard);
    assert(ks[1] == GuardKind::Spearman);
    assert(ks[2] == GuardKind::CrossbowGuard);
    assert(ks[3] == GuardKind::Mage);
}

/// Repairing a repaired campaign changes nothing: every field it repairs
/// reads the same afterwards, and it touches no other field.
pub proof fn lemma_normalize_is_idempotent(
    c0: CampaignState,
    c1: CampaignState,
    c2: CampaignState,
    first_mission_id: Option<&str>,
)
    requires
        c1.is_normalized_from(c0, first_mission_id),
        c2.is_normalized_from(c1, first_mission_id),
    ensures
        c2.selected_mission_id@ == c1.selected_mission_id@,
        c2.selected_route_choices@ == c1.selected_route_choices@,
        id_views(c2.hired_guard_ids@) == id_views(c1.hired_guard_ids@),
        id_views(c2.selected_guard_ids@) == id_views(c1.selected_guard_ids@),
        c2.selected_guard_id@ == c1.selected_guard_id@,
        id_views(c2.selected_ranged_ids@) == id_views(c1.selected_ranged_ids@),
        c2.guard_stars@ == c1.guard_stars@,
        id_views(c2.selected_equipment_ids@) == id_views(c1.selected_equipment_ids@),
        c2 == (CampaignState {
            selected_mission_id: c2.selected_mission_id,
            selected_route_choices: c2.selected_route_choices,
            hired_guard_ids: c2.hired_guard_ids,
            selected_guard_id: c2.selected_guard_id,
            selected_guard_ids: c2.selected_guard_ids,
            selected_ranged_ids: c2.selected_ranged_ids,
            guard_stars: c2.guard_stars,
            selected_equipment_ids: c2.selected_equipment_ids,
            ..c1
        }),
{
    // Route choices.
    assert(c2.selected_route_choices@ =~= c1.selected_route_choices@);
    // Roster.
    lemma_hired_idempotent(c0.hired_guard_ids@, c1.hired_guard_ids@);
    let h1 = c1.hired_guard_ids@;
    let h2 = c2.hired_guard_ids@;
    assert forall|x: Seq<char>| #[trigger] ids_contain(h2, x) == ids_contain(h1, x) by {
        lemma_ids_contain_views(h1, x);
        lemma_ids_contain_views(h2, x);
    }
    lemma_repaired_campaign_is_consistent(c0, c1, first_mission_id);
    assert forall|k: GuardKind| #![trigger k.spec_id()] GuardKind::spec_from_id(k.spec_id()) == k by {
        crate::guards::lemma_guard_id_round_trip(k);
    }
    assert(GuardKind::spec_from_id(GuardKind::Archer.spec_id()) == GuardKind::Archer);

    // Melee selection.
    let xm = id_views(c1.selected_guard_ids@);
    let lm = c1.spec_chassis_slot_count() as nat;
    assert forall|i: int| 0 <= i < xm.len() implies #[trigger] names_hired_kind(xm[i], false, h2) by {
        assert(names_hired_kind(xm[i], false, h1));
        let k = choose|k: GuardKind| k.spec_id() == xm[i] && k.spec_is_ranged() == false && ids_contain(h1, k.spec_id());
        assert(ids_contain(h2, k.spec_id()));
    }
    assert(xm[0] == c1.selected_guard_id@);
    assert(names_hired_kind(xm[0], false, h1));
    let km = choose|k: GuardKind| k.spec_id() == xm[0] && k.spec_is_ranged() == false && ids_contain(h1, k.spec_id());
    assert(ids_contain(h2, km.spec_id()));
    assert(GuardKind::spec_from_id(c1.selected_guard_id@) == km);
    let em = c1.spec_repaired_selected_guard(h2);
    assert(em == xm[0]);
    assert(xm.contains(xm[0]));
    assert(xm =~= Seq::<Seq<char>>::empty() + xm);
    lemma_selection_reproduces(xm, xm, Seq::empty(), em, false, h2, lm);
    assert(id_views(c1.selected_guard_ids@) + seq![em] == xm + seq![em]);

    // Ranged selection.
    let xr = id_views(c1.selected_ranged_ids@);
    let lr = c1.spec_ranged_slot_count() as nat;
    let ar = "archer"@;
    assert(GuardKind::Archer.spec_id() == ar);
    assert(ids_contain(h1, ar));
    lemma_selection_takes_last(id_views(c0.selected_ranged_ids@), ar, true, h1, lr, Seq::empty());
    assert(xr.contains(ar) || xr.len() == lr) by {
        let walked = spec_normalize_selection(id_views(c0.selected_ranged_ids@) + seq![ar], true, h1, lr, Seq::empty());
        if walked.len() == 0 {
            assert(xr == seq![ar]);
            assert(xr[0] == ar);
        }
    }
    assert forall|i: int| 0 <= i < xr.len() implies #[trigger] names_hired_kind(xr[i], true, h2) by {
        assert(names_hired_kind(xr[i], true, h1));
        let k = choose|k: GuardKind| k.spec_id() == xr[i] && k.spec_is_ranged() == true && ids_contain(h1, k.spec_id());
        assert(ids_contain(h2, k.spec_id()));
    }
    assert(xr =~= Seq::<Seq<char>>::empty() + xr);
    lemma_selection_reproduces(xr, xr, Seq::empty(), ar, true, h2, lr);

    // Stars.
    assert(c2.guard_stars@[GuardKind::Swordsman.spec_position()] == c1.guard_stars@[GuardKind::Swordsman.spec_position()]);
    assert(c2.guard_stars@[GuardKind::ShieldGuard.spec_position()] == c1.guard_stars@[GuardKind::ShieldGuard.spec_position()]);
    assert(c2.guard_stars@[GuardKind::Spearman.spec_position()] == c1.guard_stars@[GuardKind::Spearman.spec_position()]);
    assert(c2.guard_stars@[GuardKind::Archer.spec_position()] == c1.guard_stars@[GuardKind::Archer.spec_position()]);
    assert(c2.guard_stars@[GuardKind::CrossbowGuard.spec_position()] == c1.guard_stars@[GuardKind::CrossbowGuard.spec_position()]);
    assert(c2.guard_stars@[GuardKind::Mage.spec_position()] == c1.guard_stars@[GuardKind::Mage.spec_position()]);
    assert(c2.guard_stars@ =~= c1.guard_stars@);

    // Equipment.
    let xe = id_views(c1.selected_equipment_ids@);
    let lv = c1.equipment_levels();
    let le = c1.spec_equipment_slot_count() as nat;
    let armor = "carriage_armor"@;
    crate::kinds::lemma_equipment_id_round_trip(crate::kinds::CarriageEquipment::IronPlating);
    assert(crate::kinds::CarriageEquipment::IronPlating.spec_id() == armor);
    if lv.available(crate::kinds::CarriageEquipment::IronPlating) {
        crate::equipment::lemma_equipment_takes_last(lv, id_views(c0.selected_equipment_ids@), armor, le, Seq::empty());
    }
    assert forall|i: int| 0 <= i < xe.len() implies #[trigger] crate::equipment::installed_id(lv, xe[i]) by {
        assert(xe[i] == c1.selected_equipment_ids@[i]@);
    }
    assert(xe =~= Seq::<Seq<char>>::empty() + xe);
    crate::equipment::lemma_equipment_reproduces(lv, xe, xe, Seq::empty(), armor, le);
}

} // verus!
