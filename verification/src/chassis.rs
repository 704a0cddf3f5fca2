//! Carriage chassis: the content list, the order in which it is offered, and
//! how a campaign owns, buys and switches between chassis.

use vstd::prelude::*;
use crate::text::str_eq;
use crate::campaign::{CampaignState, contains_id, id_views, ids_contain};
use crate::equipment::spec_normalize_equipment;
use crate::ids::lemma_id_views_push;
use crate::loadout::lemma_ids_contain_views;
use crate::session::GameSession;

verus! {

/// A purchasable carriage chassis. Its speed and health tuning lives with the
/// simulation; what the campaign rules read is here.
#[derive(Debug, Clone)]
pub struct ChassisDef {
    pub id: String,
    pub name: String,
    pub description: String,
    pub order: u32,
    pub slots: usize,
    pub cost: i64,
}

/// Position of the first chassis whose identifier is `id`.
pub open spec fn chassis_index(defs: Seq<ChassisDef>, id: Seq<char>) -> Option<int>
    decreases defs.len(),
{
    if defs.len() == 0 {
        None
    } else if defs[0].id@ == id {
        Some(0)
    } else {
        match chassis_index(defs.drop_first(), id) {
            Some(i) => Some(i + 1),
            None => None,
        }
    }
}

pub proof fn lemma_chassis_index(defs: Seq<ChassisDef>, id: Seq<char>)
    ensures
        match chassis_index(defs, id) {
            Some(i) => 0 <= i < defs.len() && defs[i].id@ == id && forall|j: int|
                0 <= j < i ==> #[trigger] defs[j].id@ != id,
            None => forall|j: int| 0 <= j < defs.len() ==> #[trigger] defs[j].id@ != id,
        },
    decreases defs.len(),
{
    if defs.len() > 0 {
        lemma_chassis_index(defs.drop_first(), id);
        assert forall|j: int| 1 <= j < defs.len() implies defs[j] == defs.drop_first()[j - 1] by {}
    }
}

/// Whether `id` names a chassis of the content list.
pub open spec fn is_known_chassis(defs: Seq<ChassisDef>, id: Seq<char>) -> bool {
    chassis_index(defs, id) is Some
}

/// The first chassis whose identifier is `id`.
pub fn find_chassis<'a>(defs: &'a [ChassisDef], id: &str) -> (r: Option<&'a ChassisDef>)
    ensures
        match chassis_index(defs@, id@) {
            Some(i) => r == Some(&defs@[i]),
            None => r is None,
        },
{
    proof {
        lemma_chassis_index(defs@, id@);
    }
    let mut i: usize = 0;
    while i < defs.len()
        invariant
            i <= defs@.len(),
            forall|j: int| 0 <= j < i ==> #[trigger] defs@[j].id@ != id@,
        decreases defs@.len() - i,
    {
        if str_eq(defs[i].id.as_str(), id) {
            proof {
                lemma_chassis_index(defs@, id@);
                match chassis_index(defs@, id@) {
                    Some(k) => {
                        if k < i {
                            assert(defs@[k].id@ != id@);
                        }
                        if (i as int) < k {
                            assert(defs@[i as int].id@ != id@);
                        }
                    },
                    None => {
                        assert(defs@[i as int].id@ != id@);
                    },
                }
            }
            return Some(&defs[i]);
        }
        i = i + 1;
    }
    None
}

/// In the list sorted by `order` (ties kept in list order), entry `i` comes
/// no later than entry `j`.
pub open spec fn precedes(defs: Seq<ChassisDef>, i: int, j: int) -> bool {
    defs[i].order < defs[j].order || (defs[i].order == defs[j].order && i <= j)
}

/// Entry `i` is the first of the list sorted by `order`.
pub open spec fn first_in_order(defs: Seq<ChassisDef>, i: int) -> bool {
    0 <= i < defs.len() && forall|j: int| 0 <= j < defs.len() ==> #[trigger] precedes(defs, i, j)
}

/// Entry `i` is the last of the list sorted by `order`.
pub open spec fn last_in_order(defs: Seq<ChassisDef>, i: int) -> bool {
    0 <= i < defs.len() && forall|j: int| 0 <= j < defs.len() ==> #[trigger] precedes(defs, j, i)
}

/// Entry `i` is the first, in the list sorted by `order`, with at least
/// `target` slots.
pub open spec fn first_fit(defs: Seq<ChassisDef>, i: int, target: int) -> bool {
    &&& 0 <= i < defs.len()
    &&& defs[i].slots >= target
    &&& forall|j: int| 0 <= j < defs.len() && defs[j].slots >= target ==> #[trigger] precedes(defs, i, j)
}

pub proof fn lemma_first_in_order_unique(defs: Seq<ChassisDef>, i: int, j: int)
    requires
        first_in_order(defs, i),
        first_in_order(defs, j),
    ensures
        i == j,
{
    assert(precedes(defs, i, j));
    assert(precedes(defs, j, i));
}

pub proof fn lemma_last_in_order_unique(defs: Seq<ChassisDef>, i: int, j: int)
    requires
        last_in_order(defs, i),
        last_in_order(defs, j),
    ensures
        i == j,
{
    assert(precedes(defs, i, j));
    assert(precedes(defs, j, i));
}

pub proof fn lemma_first_fit_unique(defs: Seq<ChassisDef>, i: int, j: int, target: int)
    requires
        first_fit(defs, i, target),
        first_fit(defs, j, target),
    ensures
        i == j,
{
    assert(precedes(defs, i, j));
    assert(precedes(defs, j, i));
}

fn first_in_order_index(defs: &[ChassisDef]) -> (r: Option<usize>)
    ensures
        r is None <==> defs@.len() == 0,
        r matches Some(i) ==> first_in_order(defs@, i as int),
{
    if defs.len() == 0 {
        return None;
    }
    let mut best: usize = 0;
    let mut i: usize = 1;
    while i < defs.len()
        invariant
            1 <= i <= defs@.len(),
            best < i,
            forall|j: int| 0 <= j < i ==> #[trigger] precedes(defs@, best as int, j),
        decreases defs@.len() - i,
    {
        let ghost prev = best as int;
        if defs[i].order < defs[best].order {
            best = i;
        }
        proof {
            assert forall|j: int| 0 <= j <= i implies #[trigger] precedes(defs@, best as int, j) by {
                if j < i {
                    assert(precedes(defs@, prev, j));
                }
            }
        }
        i = i + 1;
    }
    Some(best)
}

fn last_in_order_index(defs: &[ChassisDef]) -> (r: Option<usize>)
    ensures
        r is None <==> defs@.len() == 0,
        r matches Some(i) ==> last_in_order(defs@, i as int),
{
    if defs.len() == 0 {
        return None;
    }
    let mut best: usize = 0;
    let mut i: usize = 1;
    while i < defs.len()
        invariant
            1 <= i <= defs@.len(),
            best < i,
            forall|j: int| 0 <= j < i ==> #[trigger] precedes(defs@, j, best as int),
        decreases defs@.len() - i,
    {
        let ghost prev = best as int;
        if defs[i].order >= defs[best].order {
            best = i;
        }
        proof {
            assert forall|j: int| 0 <= j <= i implies #[trigger] precedes(defs@, j, best as int) by {
                if j < i {
                    assert(precedes(defs@, j, prev));
                }
            }
        }
        i = i + 1;
    }
    Some(best)
}

fn first_fit_index(defs: &[ChassisDef], target: usize) -> (r: Option<usize>)
    ensures
        r is None <==> forall|j: int| 0 <= j < defs@.len() ==> #[trigger] defs@[j].slots < target,
        r matches Some(i) ==> first_fit(defs@, i as int, target as int),
{
    let mut best: Option<usize> = None;
    let mut i: usize = 0;
    while i < defs.len()
        invariant
            i <= defs@.len(),
            best is None <==> forall|j: int| 0 <= j < i ==> #[trigger] defs@[j].slots < target,
            best matches Some(b) ==> b < i && defs@[b as int].slots >= target && forall|j: int|
                0 <= j < i && defs@[j].slots >= target ==> #[trigger] precedes(defs@, b as int, j),
        decreases defs@.len() - i,
    {
        let ghost prev = best;
        if defs[i].slots >= target {
            match best {
                None => {
                    best = Some(i);
                },
                Some(b) => {
                    if defs[i].order < defs[b].order {
                        best = Some(i);
                    }
                },
            }
        }
        proof {
            if let Some(b) = best {
                assert forall|j: int| 0 <= j <= i && defs@[j].slots >= target implies #[trigger] precedes(defs@, b as int, j) by {
                    if j < i {
                        if let Some(p) = prev {
                            assert(precedes(defs@, p as int, j));
                        }
                    }
                }
            }
        }
        i = i + 1;
    }
    best
}

/// Identifier of the starter chassis: the first in order, or `scout_cart`
/// when the content defines none.
pub open spec fn spec_default_chassis_id(defs: Seq<ChassisDef>) -> Seq<char> {
    if defs.len() == 0 {
        "scout_cart"@
    } else {
        defs[choose|i: int| first_in_order(defs, i)].id@
    }
}

/// Slots a legacy save had at carriage level `level`.
pub open spec fn legacy_slots(level: u32) -> int {
    if level >= 4 {
        4
    } else if level >= 2 {
        3
    } else {
        2
    }
}

/// Chassis for a legacy save at carriage level `level`: the first in order
/// with enough slots, else the last in order, else the starter chassis.
pub open spec fn spec_chassis_for_level(defs: Seq<ChassisDef>, level: u32) -> Seq<char> {
    let target = legacy_slots(level);
    if exists|i: int| first_fit(defs, i, target) {
        defs[choose|i: int| first_fit(defs, i, target)].id@
    } else if defs.len() > 0 {
        defs[choose|i: int| last_in_order(defs, i)].id@
    } else {
        spec_default_chassis_id(defs)
    }
}

/// The starter chassis every campaign begins with (lowest order).
pub fn default_chassis_id(defs: &[ChassisDef]) -> (r: String)
    ensures
        r@ == spec_default_chassis_id(defs@),
{
    match first_in_order_index(defs) {
        Some(i) => {
            proof {
                let k = choose|k: int| first_in_order(defs@, k);
                lemma_first_in_order_unique(defs@, i as int, k);
            }
            defs[i].id.clone()
        },
        None => "scout_cart".to_owned(),
    }
}

/// Best-fit chassis for a legacy save's carriage level, so migrated saves
/// keep the slot count they had before chassis existed.
pub fn chassis_for_level(defs: &[ChassisDef], carriage_level: u32) -> (r: String)
    ensures
        r@ == spec_chassis_for_level(defs@, carriage_level),
{
    let target: usize = if carriage_level >= 4 {
        4
    } else if carriage_level >= 2 {
        3
    } else {
        2
    };
    match first_fit_index(defs, target) {
        Some(i) => {
            proof {
                assert(target as int == legacy_slots(carriage_level));
                assert(first_fit(defs@, i as int, target as int));
                let k = choose|k: int| first_fit(defs@, k, target as int);
                lemma_first_fit_unique(defs@, i as int, k, target as int);
            }
            defs[i].id.clone()
        },
        None => {
            assert(target as int == legacy_slots(carriage_level));
            assert(!exists|k: int| first_fit(defs@, k, target as int)) by {
                if exists|k: int| first_fit(defs@, k, target as int) {
                    let k = choose|k: int| first_fit(defs@, k, target as int);
                    assert(defs@[k].slots < target);
                }
            }
            match last_in_order_index(defs) {
                Some(i) => {
                    proof {
                        let k = choose|k: int| last_in_order(defs@, k);
                        lemma_last_in_order_unique(defs@, i as int, k);
                    }
                    defs[i].id.clone()
                },
                None => default_chassis_id(defs),
            }
        },
    }
}

/// `after` is `before` with its equipment selection rebuilt.
pub open spec fn equipment_renormalized(before: CampaignState, after: CampaignState) -> bool {
    &&& id_views(after.selected_equipment_ids@) == spec_normalize_equipment(
        before.equipment_levels(),
        id_views(before.selected_equipment_ids@) + seq!["carriage_armor"@],
        before.spec_equipment_slot_count() as nat,
        Seq::empty(),
    )
    &&& after == (CampaignState { selected_equipment_ids: after.selected_equipment_ids, ..before })
}

/// `after` is `before` with the slot count of its active chassis copied in
/// and the equipment rebuilt for it; unchanged when the chassis is unknown.
pub open spec fn chassis_refreshed(defs: Seq<ChassisDef>, before: CampaignState, after: CampaignState) -> bool {
    match chassis_index(defs, before.chassis_id@) {
        None => after == before,
        Some(i) => equipment_renormalized(CampaignState { chassis_slots: defs[i].slots, ..before }, after),
    }
}

/// Owned chassis before the starter is added: a save that owns none gets
/// the chassis matching its carriage level.
pub open spec fn legacy_owned(c: CampaignState, defs: Seq<ChassisDef>) -> Seq<Seq<char>> {
    if c.owned_chassis_ids@.len() == 0 {
        seq![spec_chassis_for_level(defs, c.carriage_level)]
    } else {
        id_views(c.owned_chassis_ids@)
    }
}

/// Owned chassis after a sync: the starter chassis first when it was
/// missing, and only identifiers the content defines.
pub open spec fn synced_owned(c: CampaignState, defs: Seq<ChassisDef>) -> Seq<Seq<char>> {
    let owned = legacy_owned(c, defs);
    let starter = spec_default_chassis_id(defs);
    let with_starter = if owned.contains(starter) {
        owned
    } else {
        seq![starter] + owned
    };
    with_starter.filter(|s: Seq<char>| is_known_chassis(defs, s))
}

/// Active chassis after a sync: the recorded one when the content defines
/// it, else the first owned one, else the starter.
pub open spec fn synced_active(c: CampaignState, defs: Seq<ChassisDef>) -> Seq<char> {
    let id = if c.owned_chassis_ids@.len() == 0 && c.chassis_id@.len() == 0 {
        spec_chassis_for_level(defs, c.carriage_level)
    } else {
        c.chassis_id@
    };
    if is_known_chassis(defs, id) {
        id
    } else if synced_owned(c, defs).len() > 0 {
        synced_owned(c, defs)[0]
    } else {
        spec_default_chassis_id(defs)
    }
}

/// The identifiers of `ids` that name a chassis of the content.
fn known_chassis_ids(ids: &Vec<String>, defs: &[ChassisDef]) -> (r: Vec<String>)
    ensures
        id_views(r@) == id_views(ids@).filter(|s: Seq<char>| is_known_chassis(defs@, s)),
{
    let mut r: Vec<String> = Vec::new();
    let mut i: usize = 0;
    let ghost pred = |s: Seq<char>| is_known_chassis(defs@, s);
    while i < ids.len()
        invariant
            i <= ids@.len(),
            pred == (|s: Seq<char>| is_known_chassis(defs@, s)),
            id_views(r@) == id_views(ids@.take(i as int)).filter(pred),
        decreases ids@.len() - i,
    {
        let ghost before = r@;
        proof {
            assert(ids@.take(i + 1) =~= ids@.take(i as int).push(ids@[i as int]));
            lemma_id_views_push(ids@.take(i as int), ids@[i as int]);
            id_views(ids@.take(i as int)).lemma_filter_push(ids@[i as int]@, pred);
        }
        if find_chassis(defs, ids[i].as_str()).is_some() {
            r.push(ids[i].clone());
            proof {
                lemma_id_views_push(before, ids@[i as int]);
            }
        }
        i = i + 1;
    }
    assert(ids@.take(ids@.len() as int) =~= ids@);
    r
}

/// `owned` with the starter chassis put first when it is missing.
fn owned_with_starter(owned: Vec<String>, starter: &str) -> (r: Vec<String>)
    ensures
        id_views(r@) == (if id_views(owned@).contains(starter@) {
            id_views(owned@)
        } else {
            seq![starter@] + id_views(owned@)
        }),
{
    proof {
        lemma_ids_contain_views(owned@, starter@);
    }
    if contains_id(&owned, starter) {
        owned
    } else {
        let mut r = owned;
        let ghost before = r@;
        r.insert(0, starter.to_owned());
        assert(id_views(r@) =~= seq![starter@] + id_views(before));
        r
    }
}

impl CampaignState {
    /// Copies the active chassis's slot count into the cached field and
    /// rebuilds the equipment for it. No change if the chassis is unknown.
    pub fn refresh_chassis_stats(&mut self, defs: &[ChassisDef])
        ensures
            chassis_refreshed(defs@, *old(self), *final(self)),
    {
        match find_chassis(defs, self.chassis_id.as_str()) {
            Some(chassis) => {
                self.chassis_slots = chassis.slots;
                self.normalize_equipment();
            },
            None => {},
        }
    }
}

impl GameSession {
    /// Buys chassis `id`: it must be defined, not yet owned and affordable.
    /// The bought chassis becomes the active one.
    pub fn buy_chassis(&mut self, defs: &[ChassisDef], id: &str) -> (r: bool)
        requires
            match chassis_index(defs@, id@) {
                Some(i) => old(self).campaign.gold - defs@[i].cost <= i64::MAX,
                None => true,
            },
        ensures
            r == match chassis_index(defs@, id@) {
                Some(i) => !ids_contain(old(self).campaign.owned_chassis_ids@, id@) && old(self).campaign.gold
                    >= defs@[i].cost,
                None => false,
            },
            !r ==> *final(self) == *old(self),
            r ==> match chassis_index(defs@, id@) {
                Some(i) => {
                    &&& id_views(final(self).campaign.owned_chassis_ids@) == id_views(
                        old(self).campaign.owned_chassis_ids@,
                    ).push(id@)
                    &&& final(self).campaign.chassis_id@ == id@
                    &&& chassis_refreshed(
                        defs@,
                        CampaignState {
                            gold: (old(self).campaign.gold - defs@[i].cost) as i64,
                            owned_chassis_ids: final(self).campaign.owned_chassis_ids,
                            chassis_id: final(self).campaign.chassis_id,
                            ..old(self).campaign
                        },
                        final(self).campaign,
                    )
                },
                None => false,
            },
            *final(self) == (GameSession { campaign: final(self).campaign, ..*old(self) }),
    {
        let cost = match find_chassis(defs, id) {
            Some(chassis) => chassis.cost,
            None => {
                return false;
            },
        };
        if self.campaign.is_chassis_owned(id) || self.campaign.gold < cost {
            return false;
        }
        self.campaign.gold = self.campaign.gold - cost;
        let ghost before = self.campaign.owned_chassis_ids@;
        let bought = id.to_owned();
        proof {
            lemma_id_views_push(before, bought);
        }
        self.campaign.owned_chassis_ids.push(bought);
        self.campaign.chassis_id = id.to_owned();
        self.campaign.refresh_chassis_stats(defs);
        true
    }

    /// Switches to owned chassis `id`, if the content defines it.
    pub fn select_chassis(&mut self, defs: &[ChassisDef], id: &str) -> (r: bool)
        ensures
            r == (ids_contain(old(self).campaign.owned_chassis_ids@, id@) && is_known_chassis(defs@, id@)),
            !r ==> *final(self) == *old(self),
            r ==> final(self).campaign.chassis_id@ == id@ && chassis_refreshed(
                defs@,
                CampaignState { chassis_id: final(self).campaign.chassis_id, ..old(self).campaign },
                final(self).campaign,
            ),
            *final(self) == (GameSession { campaign: final(self).campaign, ..*old(self) }),
    {
        if !self.campaign.is_chassis_owned(id) || find_chassis(defs, id).is_none() {
            return false;
        }
        self.campaign.chassis_id = id.to_owned();
        self.campaign.refresh_chassis_stats(defs);
        true
    }
}

impl GameSession {
    /// Resolves the active chassis and refreshes its cached stats, migrating
    /// saves that own no chassis to one matching their old slot count. The
    /// starter chassis is always owned; identifiers the content no longer
    /// defines are dropped.
    pub fn sync_chassis(&mut self, defs: &[ChassisDef])
        ensures
            id_views(final(self).campaign.owned_chassis_ids@) == synced_owned(old(self).campaign, defs@),
            final(self).campaign.chassis_id@ == synced_active(old(self).campaign, defs@),
            chassis_refreshed(
                defs@,
                CampaignState {
                    owned_chassis_ids: final(self).campaign.owned_chassis_ids,
                    chassis_id: final(self).campaign.chassis_id,
                    ..old(self).campaign
                },
                final(self).campaign,
            ),
            *final(self) == (GameSession { campaign: final(self).campaign, ..*old(self) }),
    {
        let ghost c0 = self.campaign;
        let starter = default_chassis_id(defs);
        let derived = chassis_for_level(defs, self.campaign.carriage_level);
        let legacy = self.campaign.owned_chassis_ids.len() == 0;
        let owned = if legacy {
            let mut owned: Vec<String> = Vec::new();
            owned.push(derived.clone());
            assert(id_views(owned@) =~= legacy_owned(c0, defs@));
            owned
        } else {
            self.campaign.owned_chassis_ids.clone()
        };
        assert(id_views(owned@) == legacy_owned(c0, defs@));
        let owned = known_chassis_ids(&owned_with_starter(owned, starter.as_str()), defs);
        assert(id_views(owned@) == synced_owned(c0, defs@));
        let active = if legacy && self.campaign.chassis_id.as_str().unicode_len() == 0 {
            derived
        } else {
            self.campaign.chassis_id.clone()
        };
        let active = if find_chassis(defs, active.as_str()).is_some() {
            active
        } else if owned.len() > 0 {
            assert(id_views(owned@)[0] == owned@[0]@);
            owned[0].clone()
        } else {
            starter
        };
        self.campaign.owned_chassis_ids = owned;
        self.campaign.chassis_id = active;
        self.campaign.refresh_chassis_stats(defs);
    }
}

pub proof fn lemma_first_in_order_exists(defs: Seq<ChassisDef>)
    requires
        defs.len() > 0,
    ensures
        exists|i: int| first_in_order(defs, i),
    decreases defs.len(),
{
    if defs.len() == 1 {
        assert(first_in_order(defs, 0));
    } else {
        let d = defs.drop_last();
        lemma_first_in_order_exists(d);
        let k = choose|k: int| first_in_order(d, k);
        let n = defs.len() - 1;
        if defs[n].order < defs[k].order {
            assert forall|j: int| 0 <= j < defs.len() implies #[trigger] precedes(defs, n, j) by {
                if j < n {
                    assert(precedes(d, k, j));
                }
            }
            assert(first_in_order(defs, n));
        } else {
            assert forall|j: int| 0 <= j < defs.len() implies #[trigger] precedes(defs, k, j) by {
                if j < n {
                    assert(precedes(d, k, j));
                }
            }
            assert(first_in_order(defs, k));
        }
    }
}

/// The starter chassis is a chassis of the content, when there is any.
pub proof fn lemma_starter_is_known(defs: Seq<ChassisDef>)
    requires
        defs.len() > 0,
    ensures
        is_known_chassis(defs, spec_default_chassis_id(defs)),
{
    lemma_first_in_order_exists(defs);
    let c = choose|c: int| first_in_order(defs, c);
    lemma_chassis_index(defs, defs[c].id@);
    assert(defs[c].id@ == defs[c].id@);
}

/// After a sync, with any chassis defined: the starter chassis is owned,
/// every owned chassis is one the content defines, and so is the active one.
pub proof fn lemma_sync_chassis_invariants(c: CampaignState, defs: Seq<ChassisDef>)
    requires
        defs.len() > 0,
    ensures
        synced_owned(c, defs).contains(spec_default_chassis_id(defs)),
        forall|i: int| 0 <= i < synced_owned(c, defs).len() ==> is_known_chassis(defs, #[trigger] synced_owned(c, defs)[i]),
        is_known_chassis(defs, synced_active(c, defs)),
{
    broadcast use vstd::seq_lib::group_filter_ensures;
    let starter = spec_default_chassis_id(defs);
    let owned = legacy_owned(c, defs);
    let with_starter = if owned.contains(starter) {
        owned
    } else {
        seq![starter] + owned
    };
    let pred = |s: Seq<char>| is_known_chassis(defs, s);
    lemma_starter_is_known(defs);
    assert(with_starter.contains(starter)) by {
        if !owned.contains(starter) {
            assert(with_starter[0] == starter);
        }
    }
    let k = choose|k: int| 0 <= k < with_starter.len() && with_starter[k] == starter;
    with_starter.lemma_filter_contains(pred, k);
    assert(synced_owned(c, defs) == with_starter.filter(pred));
    assert forall|i: int| 0 <= i < synced_owned(c, defs).len() implies is_known_chassis(defs, #[trigger] synced_owned(c, defs)[i]) by {
        with_starter.lemma_filter_pred(pred, i);
    }
    if synced_owned(c, defs).len() > 0 {
        assert(is_known_chassis(defs, synced_owned(c, defs)[0]));
    }
}

} // verus!
