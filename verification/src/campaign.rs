//! Campaign progression state: gold, upgrade levels, the guard roster and its
//! stars and injuries, loadout selections, equipment and mission records.

use vstd::prelude::*;
use crate::text::str_eq;
use crate::guards::GuardKind;
use crate::kinds::CarriageEquipment;
use crate::keyed::KeyedList;
use crate::records::ExpeditionRecords;

verus! {

/// Player-chosen challenge level, applied as a multiplier on mission difficulty.
#[derive(Debug, Clone, Copy, PartialEq, Eq, Structural)]
pub enum DifficultyPreset {
    Relaxed,
    Standard,
    Hard,
}

impl Default for DifficultyPreset {
    fn default() -> (r: Self)
        ensures
            r == DifficultyPreset::Standard,
    {
        DifficultyPreset::Standard
    }
}

impl DifficultyPreset {
    pub open spec fn spec_all() -> Seq<DifficultyPreset> {
        seq![DifficultyPreset::Relaxed, DifficultyPreset::Standard, DifficultyPreset::Hard]
    }

    pub fn all() -> (r: [DifficultyPreset; 3])
        ensures
            r@ == Self::spec_all(),
    {
        let r = [DifficultyPreset::Relaxed, DifficultyPreset::Standard, DifficultyPreset::Hard];
        assert(r@ =~= Self::spec_all());
        r
    }

    pub open spec fn spec_id(self) -> Seq<char> {
        match self {
            DifficultyPreset::Relaxed => "relaxed"@,
            DifficultyPreset::Standard => "standard"@,
            DifficultyPreset::Hard => "hard"@,
        }
    }

    /// Save-file identifier.
    pub fn id(self) -> (r: &'static str)
        ensures
            r@ == self.spec_id(),
    {
        match self {
            DifficultyPreset::Relaxed => "relaxed",
            DifficultyPreset::Standard => "standard",
            DifficultyPreset::Hard => "hard",
        }
    }

    pub open spec fn spec_label(self) -> Seq<char> {
        match self {
            DifficultyPreset::Relaxed => "Relaxed"@,
            DifficultyPreset::Standard => "Standard"@,
            DifficultyPreset::Hard => "Hard"@,
        }
    }

    /// Display name.
    pub fn label(self) -> (r: &'static str)
        ensures
            r@ == self.spec_label(),
    {
        match self {
            DifficultyPreset::Relaxed => "Relaxed",
            DifficultyPreset::Standard => "Standard",
            DifficultyPreset::Hard => "Hard",
        }
    }

    pub open spec fn spec_from_id(id: Seq<char>) -> DifficultyPreset {
        if id == "relaxed"@ {
            DifficultyPreset::Relaxed
        } else if id == "standard"@ {
            DifficultyPreset::Standard
        } else if id == "hard"@ {
            DifficultyPreset::Hard
        } else {
            DifficultyPreset::Standard
        }
    }

    /// The preset an identifier names; unknown identifiers give the default, Standard.
    pub fn from_id(id: &str) -> (r: DifficultyPreset)
        ensures
            r == Self::spec_from_id(id@),
    {
        if str_eq(id, "relaxed") {
            DifficultyPreset::Relaxed
        } else if str_eq(id, "standard") {
            DifficultyPreset::Standard
        } else if str_eq(id, "hard") {
            DifficultyPreset::Hard
        } else {
            DifficultyPreset::Standard
        }
    }
}

/// Best results on one mission.
#[derive(Debug, Clone, Copy, PartialEq, Eq, Structural)]
pub struct MissionRecord {
    pub best_stars: u8,
    pub best_score: i64,
    pub best_reward: i64,
    pub completions: u32,
}

/// A purchasable upgrade track.
#[derive(Debug, Clone)]
pub struct UpgradeDef {
    pub id: String,
    pub name: String,
    pub description: String,
    pub base_cost: i64,
    pub max_level: u32,
}

/// Static game configuration.
#[derive(Debug, Clone)]
pub struct GameConfig {
    pub game_name: String,
    pub display_name: String,
    pub save_slot: String,
    pub version: String,
    pub starting_gold: i64,
}

/// The upgrade tracks a campaign keeps a level for.
pub open spec fn is_upgrade_track(id: Seq<char>) -> bool {
    ||| id == "carriage_armor"@
    ||| id == "guard_training"@
    ||| id == "mounted_archer"@
    ||| id == "reinforced_wheels"@
    ||| id == "cargo_straps"@
    ||| id == "repair_kit"@
    ||| id == "spiked_hubs"@
    ||| id == "warding_lantern"@
}

/// Whether some identifier in `ids` equals `id`.
pub open spec fn ids_contain(ids: Seq<String>, id: Seq<char>) -> bool {
    exists|i: int| 0 <= i < ids.len() && ids[i]@ == id
}

/// Whether some identifier in `ids` equals `id`.
pub fn contains_id(ids: &Vec<String>, id: &str) -> (r: bool)
    ensures
        r == ids_contain(ids@, id@),
{
    let mut i: usize = 0;
    while i < ids.len()
        invariant
            i <= ids@.len(),
            forall|j: int| 0 <= j < i ==> ids@[j]@ != id@,
        decreases ids@.len() - i,
    {
        if str_eq(ids[i].as_str(), id) {
            return true;
        }
        i = i + 1;
    }
    false
}

/// The views of a list of identifiers.
pub open spec fn id_views(ids: Seq<String>) -> Seq<Seq<char>> {
    ids.map_values(|s: String| s@)
}

pub fn default_guard_id() -> (r: String)
    ensures
        r@ == "swordsman"@,
{
    "swordsman".to_owned()
}

pub fn default_stake_id() -> (r: String)
    ensures
        r@ == "none"@,
{
    "none".to_owned()
}

pub fn default_selected_guard_ids() -> (r: Vec<String>)
    ensures
        id_views(r@) == seq!["swordsman"@],
{
    let mut r = Vec::new();
    r.push(default_guard_id());
    assert(id_views(r@) =~= seq!["swordsman"@]);
    r
}

pub fn default_selected_ranged_ids() -> (r: Vec<String>)
    ensures
        id_views(r@) == seq!["archer"@],
{
    let mut r = Vec::new();
    r.push("archer".to_owned());
    assert(id_views(r@) =~= seq!["archer"@]);
    r
}

pub fn default_hired_guard_ids() -> (r: Vec<String>)
    ensures
        id_views(r@) == seq!["swordsman"@, "archer"@],
{
    let mut r = Vec::new();
    r.push(default_guard_id());
    r.push("archer".to_owned());
    assert(id_views(r@) =~= seq!["swordsman"@, "archer"@]);
    r
}

pub fn default_selected_equipment_ids() -> (r: Vec<String>)
    ensures
        id_views(r@) == seq!["carriage_armor"@],
{
    let mut r = Vec::new();
    r.push(CarriageEquipment::IronPlating.id().to_owned());
    assert(id_views(r@) =~= seq!["carriage_armor"@]);
    r
}

pub fn default_true() -> (r: bool)
    ensures
        r,
{
    true
}

/// Campaign progression saved between sessions.
///
/// Guard stars and recovery turns are kept per guard kind, in roster order
/// (`GuardKind::all`); a zero stands for "nothing recorded".
#[derive(Debug, Clone)]
pub struct CampaignState {
    pub gold: i64,
    pub carriage_level: u32,
    pub guard_level: u32,
    pub archer_level: u32,
    pub wheel_level: u32,
    pub cargo_level: u32,
    pub repair_level: u32,
    pub hubs_level: u32,
    pub lantern_level: u32,
    pub selected_guard_id: String,
    pub selected_guard_ids: Vec<String>,
    pub selected_ranged_ids: Vec<String>,
    pub hired_guard_ids: Vec<String>,
    pub selected_equipment_ids: Vec<String>,
    pub chassis_id: String,
    pub owned_chassis_ids: Vec<String>,
    /// Slot count cached from the active chassis; zero means "not resolved".
    pub chassis_slots: usize,
    pub guard_stars: [u8; 6],
    pub guard_recovery: [u32; 6],
    pub route_motion_enabled: bool,
    pub alerts_enabled: bool,
    pub auto_save_enabled: bool,
    pub difficulty_preset: DifficultyPreset,
    pub generous_timers: bool,
    pub reinforced_kits: u32,
    pub slower_waves: bool,
    pub sturdy_carriage: bool,
    pub expedition_tokens: i64,
    pub expedition_unlocks: Vec<String>,
    pub expedition_records: ExpeditionRecords,
    pub selected_stake_id: String,
    pub selected_mission_id: String,
    pub selected_route_choices: KeyedList<String>,
    pub records: KeyedList<MissionRecord>,
}

/// Value clamped into `lo..=hi`.
pub open spec fn clamp(v: int, lo: int, hi: int) -> int {
    if v < lo {
        lo
    } else if v > hi {
        hi
    } else {
        v
    }
}

/// A copy of a list of identifiers.
pub(crate) fn copy_ids(ids: &Vec<String>) -> (r: Vec<String>)
    ensures
        r@ == ids@,
{
    let mut r: Vec<String> = Vec::new();
    let mut i: usize = 0;
    while i < ids.len()
        invariant
            i <= ids@.len(),
            r@ == ids@.subrange(0, i as int),
        decreases ids@.len() - i,
    {
        r.push(ids[i].clone());
        i = i + 1;
    }
    assert(r@ =~= ids@);
    r
}

/// A copy of the mission records.
fn copy_records(records: &KeyedList<MissionRecord>) -> (r: KeyedList<MissionRecord>)
    ensures
        r.entries@ == records.entries@,
{
    let mut entries: Vec<(String, MissionRecord)> = Vec::new();
    let mut i: usize = 0;
    while i < records.entries.len()
        invariant
            i <= records.entries@.len(),
            entries@ == records.entries@.subrange(0, i as int),
        decreases records.entries@.len() - i,
    {
        let record: MissionRecord = records.entries[i].1;
        entries.push((records.entries[i].0.clone(), record));
        i = i + 1;
    }
    assert(entries@ =~= records.entries@);
    KeyedList { entries }
}

/// A copy of the route choices.
fn copy_choices(choices: &KeyedList<String>) -> (r: KeyedList<String>)
    ensures
        r.entries@ == choices.entries@,
{
    let mut entries: Vec<(String, String)> = Vec::new();
    let mut i: usize = 0;
    while i < choices.entries.len()
        invariant
            i <= choices.entries@.len(),
            entries@ == choices.entries@.subrange(0, i as int),
        decreases choices.entries@.len() - i,
    {
        entries.push((choices.entries[i].0.clone(), choices.entries[i].1.clone()));
        i = i + 1;
    }
    assert(entries@ =~= choices.entries@);
    KeyedList { entries }
}

impl CampaignState {
    /// The keyed maps hold no key twice.
    pub open spec fn wf(&self) -> bool {
        self.selected_route_choices.wf() && self.records.wf()
    }

    /// Level of the upgrade track `id`; zero for an unknown track.
    pub open spec fn spec_upgrade_level(&self, id: Seq<char>) -> u32 {
        if id == "carriage_armor"@ {
            self.carriage_level
        } else if id == "guard_training"@ {
            self.guard_level
        } else if id == "mounted_archer"@ {
            self.archer_level
        } else if id == "reinforced_wheels"@ {
            self.wheel_level
        } else if id == "cargo_straps"@ {
            self.cargo_level
        } else if id == "repair_kit"@ {
            self.repair_level
        } else if id == "spiked_hubs"@ {
            self.hubs_level
        } else if id == "warding_lantern"@ {
            self.lantern_level
        } else {
            0
        }
    }

    /// Guard and equipment slots granted by the active chassis, or by the
    /// carriage level for a chassis that is not resolved.
    pub open spec fn spec_chassis_slot_count(&self) -> int {
        if self.chassis_slots > 0 {
            clamp(self.chassis_slots as int, 2, 4)
        } else if self.carriage_level >= 4 {
            4
        } else if self.carriage_level >= 2 {
            3
        } else {
            2
        }
    }

    pub open spec fn spec_ranged_slot_count(&self) -> int {
        if self.archer_level >= 3 { 2 } else { 1 }
    }

    pub open spec fn spec_is_guard_hired(&self, kind: GuardKind) -> bool {
        ids_contain(self.hired_guard_ids@, kind.spec_id())
    }

    pub open spec fn spec_is_guard_unlocked(&self, kind: GuardKind) -> bool {
        self.carriage_level >= kind.spec_unlock_level()
    }

    pub open spec fn spec_can_hire_guard(&self, kind: GuardKind) -> bool {
        self.spec_is_guard_unlocked(kind) && !self.spec_is_guard_hired(kind) && self.gold
            >= kind.spec_hire_cost()
    }

    /// Star level of a kind: its recorded stars clamped to 1..=3.
    pub open spec fn spec_guard_star_level(&self, kind: GuardKind) -> u8 {
        clamp(self.guard_stars@[kind.spec_position()] as int, 1, 3) as u8
    }

    pub open spec fn spec_guard_recovery_missions(&self, kind: GuardKind) -> u32 {
        self.guard_recovery@[kind.spec_position()]
    }

    pub open spec fn spec_guard_treat_cost(&self, kind: GuardKind) -> Option<i64> {
        let recovery = self.spec_guard_recovery_missions(kind);
        if recovery > 0 {
            Some((30 + kind.spec_hire_cost() / 5 + recovery * 15) as i64)
        } else {
            None
        }
    }

    pub open spec fn spec_is_guard_available(&self, kind: GuardKind) -> bool {
        self.spec_is_guard_hired(kind) && self.spec_guard_recovery_missions(kind) == 0
    }

    pub open spec fn spec_upgrade_cost(&self, upgrade: &UpgradeDef) -> Option<i64> {
        let level = self.spec_upgrade_level(upgrade.id@);
        if level < upgrade.max_level {
            Some((upgrade.base_cost * (level + 1)) as i64)
        } else {
            None
        }
    }

    /// The state of a fresh campaign: starting gold, level-one carriage and
    /// training, the swordsman and archer hired and selected, iron plating
    /// equipped, default preferences and no records.
    pub open spec fn is_fresh(&self, config: GameConfig, first_mission_id: Option<&str>) -> bool {
        &&& self.wf()
        &&& self.gold == config.starting_gold
        &&& self.carriage_level == 1 && self.guard_level == 1 && self.archer_level == 1
        &&& self.wheel_level == 0 && self.cargo_level == 0 && self.repair_level == 0
        &&& self.hubs_level == 0 && self.lantern_level == 0
        &&& self.selected_guard_id@ == "swordsman"@
        &&& id_views(self.selected_guard_ids@) == seq!["swordsman"@]
        &&& id_views(self.selected_ranged_ids@) == seq!["archer"@]
        &&& id_views(self.hired_guard_ids@) == seq!["swordsman"@, "archer"@]
        &&& id_views(self.selected_equipment_ids@) == seq!["carriage_armor"@]
        &&& self.chassis_id@ == Seq::<char>::empty()
        &&& self.owned_chassis_ids@.len() == 0
        &&& self.chassis_slots == 0
        &&& self.guard_stars@ == seq![0u8, 0u8, 0u8, 0u8, 0u8, 0u8]
        &&& self.guard_recovery@ == seq![0u32, 0u32, 0u32, 0u32, 0u32, 0u32]
        &&& self.route_motion_enabled && self.alerts_enabled && self.auto_save_enabled
        &&& self.difficulty_preset == DifficultyPreset::Standard
        &&& !self.generous_timers && !self.slower_waves && !self.sturdy_carriage
        &&& self.reinforced_kits == 0
        &&& self.expedition_tokens == 0
        &&& self.expedition_unlocks@.len() == 0
        &&& self.expedition_records.history@.len() == 0
        &&& self.expedition_records.runs_started == 0 && self.expedition_records.wins == 0
        &&& self.expedition_records.best_legs == 0 && self.expedition_records.best_banked == 0
        &&& self.expedition_records.total_legs == 0
        &&& self.selected_stake_id@ == "none"@
        &&& self.selected_mission_id@ == (match first_mission_id {
            Some(id) => id@,
            None => "muddy_road"@,
        })
        &&& self.selected_route_choices@ == Map::<Seq<char>, String>::empty()
        &&& self.records@ == Map::<Seq<char>, MissionRecord>::empty()
    }

    pub fn new(config: &GameConfig, first_mission_id: Option<&str>) -> (r: Self)
        ensures
            r.is_fresh(*config, first_mission_id),
    {
        let selected_mission_id = match first_mission_id {
            Some(id) => id.to_owned(),
            None => "muddy_road".to_owned(),
        };
        let r = CampaignState {
            gold: config.starting_gold,
            carriage_level: 1,
            guard_level: 1,
            archer_level: 1,
            wheel_level: 0,
            cargo_level: 0,
            repair_level: 0,
            hubs_level: 0,
            lantern_level: 0,
            selected_guard_id: default_guard_id(),
            selected_guard_ids: default_selected_guard_ids(),
            selected_ranged_ids: default_selected_ranged_ids(),
            hired_guard_ids: default_hired_guard_ids(),
            selected_equipment_ids: default_selected_equipment_ids(),
            chassis_id: String::new(),
            owned_chassis_ids: Vec::new(),
            chassis_slots: 0,
            guard_stars: [0u8; 6],
            guard_recovery: [0u32; 6],
            route_motion_enabled: true,
            alerts_enabled: true,
            auto_save_enabled: true,
            difficulty_preset: DifficultyPreset::Standard,
            generous_timers: false,
            reinforced_kits: 0,
            slower_waves: false,
            sturdy_carriage: false,
            expedition_tokens: 0,
            expedition_unlocks: Vec::new(),
            expedition_records: ExpeditionRecords::default(),
            selected_stake_id: default_stake_id(),
            selected_mission_id,
            selected_route_choices: KeyedList::new(),
            records: KeyedList::new(),
        };
        assert(r.guard_stars@ =~= seq![0u8, 0u8, 0u8, 0u8, 0u8, 0u8]);
        assert(r.guard_recovery@ =~= seq![0u32, 0u32, 0u32, 0u32, 0u32, 0u32]);
        r
    }

    /// Level of the upgrade track `id`; zero for an unknown track.
    pub fn upgrade_level(&self, id: &str) -> (r: u32)
        ensures
            r == self.spec_upgrade_level(id@),
    {
        if str_eq(id, "carriage_armor") {
            self.carriage_level
        } else if str_eq(id, "guard_training") {
            self.guard_level
        } else if str_eq(id, "mounted_archer") {
            self.archer_level
        } else if str_eq(id, "reinforced_wheels") {
            self.wheel_level
        } else if str_eq(id, "cargo_straps") {
            self.cargo_level
        } else if str_eq(id, "repair_kit") {
            self.repair_level
        } else if str_eq(id, "spiked_hubs") {
            self.hubs_level
        } else if str_eq(id, "warding_lantern") {
            self.lantern_level
        } else {
            0
        }
    }

    /// Gold for the next level of `upgrade`: its base cost times the level it
    /// would reach; none once the track is at its maximum.
    pub fn upgrade_cost(&self, upgrade: &UpgradeDef) -> (r: Option<i64>)
        requires
            self.spec_upgrade_level(upgrade.id@) < upgrade.max_level ==> i64::MIN <= upgrade.base_cost
                * (self.spec_upgrade_level(upgrade.id@) + 1) <= i64::MAX,
        ensures
            r == self.spec_upgrade_cost(upgrade),
    {
        let level = self.upgrade_level(upgrade.id.as_str());
        if level < upgrade.max_level {
            Some(upgrade.base_cost * (level as i64 + 1))
        } else {
            None
        }
    }

    /// Guard and equipment slots granted by the active chassis.
    pub fn chassis_slot_count(&self) -> (r: usize)
        ensures
            r as int == self.spec_chassis_slot_count(),
            2 <= r <= 4,
    {
        if self.chassis_slots > 0 {
            if self.chassis_slots < 2 {
                2
            } else if self.chassis_slots > 4 {
                4
            } else {
                self.chassis_slots
            }
        } else if self.carriage_level >= 4 {
            4
        } else if self.carriage_level >= 2 {
            3
        } else {
            2
        }
    }

    pub fn guard_slot_count(&self) -> (r: usize)
        ensures
            r as int == self.spec_chassis_slot_count(),
            2 <= r <= 4,
    {
        self.chassis_slot_count()
    }

    /// Ranged slots: two once mounted archery reaches level three, else one.
    pub fn ranged_slot_count(&self) -> (r: usize)
        ensures
            r as int == self.spec_ranged_slot_count(),
    {
        if self.archer_level >= 3 {
            2
        } else {
            1
        }
    }

    pub fn is_chassis_owned(&self, id: &str) -> (r: bool)
        ensures
            r == ids_contain(self.owned_chassis_ids@, id@),
    {
        contains_id(&self.owned_chassis_ids, id)
    }

    pub fn is_guard_unlocked(&self, kind: GuardKind) -> (r: bool)
        ensures
            r == self.spec_is_guard_unlocked(kind),
    {
        self.carriage_level >= kind.unlock_level()
    }

    pub fn is_guard_hired(&self, kind: GuardKind) -> (r: bool)
        ensures
            r == self.spec_is_guard_hired(kind),
    {
        contains_id(&self.hired_guard_ids, kind.id())
    }

    pub fn guard_hire_cost(&self, kind: GuardKind) -> (r: i64)
        ensures
            r == kind.spec_hire_cost(),
    {
        kind.hire_cost()
    }

    pub fn can_hire_guard(&self, kind: GuardKind) -> (r: bool)
        ensures
            r == self.spec_can_hire_guard(kind),
    {
        self.is_guard_unlocked(kind) && !self.is_guard_hired(kind) && self.gold >= self.guard_hire_cost(kind)
    }

    pub fn guard_star_level(&self, kind: GuardKind) -> (r: u8)
        ensures
            r == self.spec_guard_star_level(kind),
            1 <= r <= 3,
    {
        let stars = self.guard_stars[kind.position()];
        if stars < 1 {
            1
        } else if stars > 3 {
            3
        } else {
            stars
        }
    }

    pub fn guard_star_upgrade_cost(&self, kind: GuardKind) -> (r: Option<i64>)
        ensures
            r == kind.spec_star_upgrade_cost(self.spec_guard_star_level(kind)),
    {
        kind.star_upgrade_cost(self.guard_star_level(kind))
    }

    pub fn guard_recovery_missions(&self, kind: GuardKind) -> (r: u32)
        ensures
            r == self.spec_guard_recovery_missions(kind),
    {
        self.guard_recovery[kind.position()]
    }

    /// Gold to treat an injured guard at once: 30, plus a fifth of its hire
    /// cost, plus 15 per mission of recovery left; none when it is not injured.
    pub fn guard_treat_cost(&self, kind: GuardKind) -> (r: Option<i64>)
        ensures
            r == self.spec_guard_treat_cost(kind),
            self.guard_recovery@[kind.spec_position()] > 0 ==> r == Some(
                (30 + kind.spec_hire_cost() / 5 + 15 * self.guard_recovery@[kind.spec_position()]) as i64,
            ),
            self.guard_recovery@[kind.spec_position()] == 0 ==> r is None,
    {
        let recovery = self.guard_recovery_missions(kind);
        if recovery > 0 {
            Some(30 + kind.hire_cost() / 5 + recovery as i64 * 15)
        } else {
            None
        }
    }

    pub fn is_guard_available(&self, kind: GuardKind) -> (r: bool)
        ensures
            r == self.spec_is_guard_available(kind),
    {
        self.is_guard_hired(kind) && self.guard_recovery_missions(kind) == 0
    }
    /// The two campaigns hold the same progress, roster, selections,
    /// preferences and records.
    pub open spec fn same_contents(&self, other: &CampaignState) -> bool {
        &&& self.gold == other.gold
        &&& self.carriage_level == other.carriage_level
        &&& self.guard_level == other.guard_level
        &&& self.archer_level == other.archer_level
        &&& self.wheel_level == other.wheel_level
        &&& self.cargo_level == other.cargo_level
        &&& self.repair_level == other.repair_level
        &&& self.hubs_level == other.hubs_level
        &&& self.lantern_level == other.lantern_level
        &&& self.selected_guard_id@ == other.selected_guard_id@
        &&& id_views(self.selected_guard_ids@) == id_views(other.selected_guard_ids@)
        &&& id_views(self.selected_ranged_ids@) == id_views(other.selected_ranged_ids@)
        &&& id_views(self.hired_guard_ids@) == id_views(other.hired_guard_ids@)
        &&& id_views(self.selected_equipment_ids@) == id_views(other.selected_equipment_ids@)
        &&& self.chassis_id@ == other.chassis_id@
        &&& id_views(self.owned_chassis_ids@) == id_views(other.owned_chassis_ids@)
        &&& self.chassis_slots == other.chassis_slots
        &&& self.guard_stars@ == other.guard_stars@
        &&& self.guard_recovery@ == other.guard_recovery@
        &&& self.route_motion_enabled == other.route_motion_enabled
        &&& self.alerts_enabled == other.alerts_enabled
        &&& self.auto_save_enabled == other.auto_save_enabled
        &&& self.difficulty_preset == other.difficulty_preset
        &&& self.generous_timers == other.generous_timers
        &&& self.reinforced_kits == other.reinforced_kits
        &&& self.slower_waves == other.slower_waves
        &&& self.sturdy_carriage == other.sturdy_carriage
        &&& self.expedition_tokens == other.expedition_tokens
        &&& id_views(self.expedition_unlocks@) == id_views(other.expedition_unlocks@)
        &&& self.expedition_records.same_contents(&other.expedition_records)
        &&& self.selected_stake_id@ == other.selected_stake_id@
        &&& self.selected_mission_id@ == other.selected_mission_id@
        &&& self.selected_route_choices@ == other.selected_route_choices@
        &&& self.records@ == other.records@
    }

    /// A copy of this campaign.
    pub(crate) fn duplicate(&self) -> (r: Self)
        ensures
            r.same_contents(self),
            r.wf() == self.wf(),
    {
        CampaignState {
            gold: self.gold,
            carriage_level: self.carriage_level,
            guard_level: self.guard_level,
            archer_level: self.archer_level,
            wheel_level: self.wheel_level,
            cargo_level: self.cargo_level,
            repair_level: self.repair_level,
            hubs_level: self.hubs_level,
            lantern_level: self.lantern_level,
            selected_guard_id: self.selected_guard_id.clone(),
            selected_guard_ids: copy_ids(&self.selected_guard_ids),
            selected_ranged_ids: copy_ids(&self.selected_ranged_ids),
            hired_guard_ids: copy_ids(&self.hired_guard_ids),
            selected_equipment_ids: copy_ids(&self.selected_equipment_ids),
            chassis_id: self.chassis_id.clone(),
            owned_chassis_ids: copy_ids(&self.owned_chassis_ids),
            chassis_slots: self.chassis_slots,
            guard_stars: self.guard_stars,
            guard_recovery: self.guard_recovery,
            route_motion_enabled: self.route_motion_enabled,
            alerts_enabled: self.alerts_enabled,
            auto_save_enabled: self.auto_save_enabled,
            difficulty_preset: self.difficulty_preset,
            generous_timers: self.generous_timers,
            reinforced_kits: self.reinforced_kits,
            slower_waves: self.slower_waves,
            sturdy_carriage: self.sturdy_carriage,
            expedition_tokens: self.expedition_tokens,
            expedition_unlocks: copy_ids(&self.expedition_unlocks),
            expedition_records: self.expedition_records.duplicate(),
            selected_stake_id: self.selected_stake_id.clone(),
            selected_mission_id: self.selected_mission_id.clone(),
            selected_route_choices: copy_choices(&self.selected_route_choices),
            records: copy_records(&self.records),
        }
    }
}

} // verus!
