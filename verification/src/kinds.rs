//! Threat and hazard kinds, the boss phase, mission kinds and loadout
//! equipment: identifiers and the fixed texts shown for them.

use vstd::prelude::*;
use crate::text::str_eq;

verus! {

/// Enemy kinds a route can spawn.
#[derive(Debug, Clone, Copy, PartialEq, Eq, Structural)]
pub enum EnemyKind {
    Wolf,
    Bandit,
    BanditArcher,
    Skeleton,
    Necromancer,
    AlphaWolf,
    ArmoredBandit,
}

impl EnemyKind {
    pub open spec fn spec_all() -> Seq<EnemyKind> {
        seq![EnemyKind::Wolf, EnemyKind::Bandit, EnemyKind::BanditArcher, EnemyKind::Skeleton, EnemyKind::Necromancer, EnemyKind::AlphaWolf, EnemyKind::ArmoredBandit]
    }

    pub fn all() -> (r: [EnemyKind; 7])
        ensures
            r@ == Self::spec_all(),
    {
        let r = [EnemyKind::Wolf, EnemyKind::Bandit, EnemyKind::BanditArcher, EnemyKind::Skeleton, EnemyKind::Necromancer, EnemyKind::AlphaWolf, EnemyKind::ArmoredBandit];
        assert(r@ =~= Self::spec_all());
        r
    }

    pub open spec fn spec_from_id(id: Seq<char>) -> Option<EnemyKind> {
        if id == "wolf"@ {
            Some(EnemyKind::Wolf)
        } else if id == "bandit"@ {
            Some(EnemyKind::Bandit)
        } else if id == "bandit_archer"@ {
            Some(EnemyKind::BanditArcher)
        } else if id == "skeleton"@ {
            Some(EnemyKind::Skeleton)
        } else if id == "necromancer"@ {
            Some(EnemyKind::Necromancer)
        } else if id == "alpha_wolf"@ {
            Some(EnemyKind::AlphaWolf)
        } else if id == "armored_bandit"@ {
            Some(EnemyKind::ArmoredBandit)
        } else {
            None
        }
    }

    /// The kind an identifier names, if it names one.
    pub fn from_id(id: &str) -> (r: Option<EnemyKind>)
        ensures
            r == Self::spec_from_id(id@),
    {
        if str_eq(id, "wolf") {
            Some(EnemyKind::Wolf)
        } else if str_eq(id, "bandit") {
            Some(EnemyKind::Bandit)
        } else if str_eq(id, "bandit_archer") {
            Some(EnemyKind::BanditArcher)
        } else if str_eq(id, "skeleton") {
            Some(EnemyKind::Skeleton)
        } else if str_eq(id, "necromancer") {
            Some(EnemyKind::Necromancer)
        } else if str_eq(id, "alpha_wolf") {
            Some(EnemyKind::AlphaWolf)
        } else if str_eq(id, "armored_bandit") {
            Some(EnemyKind::ArmoredBandit)
        } else {
            None
        }
    }

    pub open spec fn spec_label(self) -> Seq<char> {
        match self {
            EnemyKind::Wolf => "Wolf"@,
            EnemyKind::Bandit => "Bandit"@,
            EnemyKind::BanditArcher => "Bandit Archer"@,
            EnemyKind::Skeleton => "Skeleton"@,
            EnemyKind::Necromancer => "Necromancer"@,
            EnemyKind::AlphaWolf => "Alpha Wolf"@,
            EnemyKind::ArmoredBandit => "Armored Bandit"@,
        }
    }

    /// Display name for the field guide and readouts.
    pub fn label(self) -> (r: &'static str)
        ensures
            r@ == self.spec_label(),
    {
        match self {
            EnemyKind::Wolf => "Wolf",
            EnemyKind::Bandit => "Bandit",
            EnemyKind::BanditArcher => "Bandit Archer",
            EnemyKind::Skeleton => "Skeleton",
            EnemyKind::Necromancer => "Necromancer",
            EnemyKind::AlphaWolf => "Alpha Wolf",
            EnemyKind::ArmoredBandit => "Armored Bandit",
        }
    }

    pub open spec fn spec_threat_tag(self) -> Seq<char> {
        match self {
            EnemyKind::Wolf => "Melee charger"@,
            EnemyKind::Bandit => "Cargo thief"@,
            EnemyKind::BanditArcher => "Ranged skirmisher"@,
            EnemyKind::Skeleton => "Undead melee"@,
            EnemyKind::Necromancer => "Summoner"@,
            EnemyKind::AlphaWolf => "Elite charger"@,
            EnemyKind::ArmoredBandit => "Armored bruiser"@,
        }
    }

    /// Short role tag for the field guide.
    pub fn threat_tag(self) -> (r: &'static str)
        ensures
            r@ == self.spec_threat_tag(),
    {
        match self {
            EnemyKind::Wolf => "Melee charger",
            EnemyKind::Bandit => "Cargo thief",
            EnemyKind::BanditArcher => "Ranged skirmisher",
            EnemyKind::Skeleton => "Undead melee",
            EnemyKind::Necromancer => "Summoner",
            EnemyKind::AlphaWolf => "Elite charger",
            EnemyKind::ArmoredBandit => "Armored bruiser",
        }
    }

    pub open spec fn spec_codex_blurb(self) -> Seq<char> {
        match self {
            EnemyKind::Wolf => "Sprints at the carriage in a burst. Post a melee guard to intercept it before it lands a bite."@,
            EnemyKind::Bandit => "Grabs cargo and bolts for the map edge. Cut down the fleeing thief to recover what it stole."@,
            EnemyKind::BanditArcher => "Hangs back and looses arrows from range. Send a guard to run it down or a mounted archer to trade."@,
            EnemyKind::Skeleton => "Slow but durable undead that hits hard, and a necromancer can raise it again. Focus it down."@,
            EnemyKind::Necromancer => "Keeps its distance, kites, and raises fresh skeletons. Kill it first to stem the tide."@,
            EnemyKind::AlphaWolf => "A pack leader — bigger, faster, and far tougher than a lone wolf. Gang up on it before it reaches the carriage."@,
            EnemyKind::ArmoredBandit => "A heavily armored raider that soaks damage and grinds toward the carriage without fleeing. Focus it down, or let a crossbow guard punch through the plate."@,
        }
    }

    /// Behaviour note and counter-play for the field guide.
    pub fn codex_blurb(self) -> (r: &'static str)
        ensures
            r@ == self.spec_codex_blurb(),
    {
        match self {
            EnemyKind::Wolf => "Sprints at the carriage in a burst. Post a melee guard to intercept it before it lands a bite.",
            EnemyKind::Bandit => "Grabs cargo and bolts for the map edge. Cut down the fleeing thief to recover what it stole.",
            EnemyKind::BanditArcher => "Hangs back and looses arrows from range. Send a guard to run it down or a mounted archer to trade.",
            EnemyKind::Skeleton => "Slow but durable undead that hits hard, and a necromancer can raise it again. Focus it down.",
            EnemyKind::Necromancer => "Keeps its distance, kites, and raises fresh skeletons. Kill it first to stem the tide.",
            EnemyKind::AlphaWolf => "A pack leader — bigger, faster, and far tougher than a lone wolf. Gang up on it before it reaches the carriage.",
            EnemyKind::ArmoredBandit => "A heavily armored raider that soaks damage and grinds toward the carriage without fleeing. Focus it down, or let a crossbow guard punch through the plate.",
        }
    }

    pub open spec fn spec_attack_label(self) -> Seq<char> {
        match self {
            EnemyKind::Wolf => "Wolf bite"@,
            EnemyKind::Bandit => "Bandit stole cargo"@,
            EnemyKind::BanditArcher => "Bandit arrow"@,
            EnemyKind::Skeleton => "Skeleton strike"@,
            EnemyKind::Necromancer => "Dark bolt"@,
            EnemyKind::AlphaWolf => "Alpha wolf maul"@,
            EnemyKind::ArmoredBandit => "Armored bandit strike"@,
        }
    }

    /// Alert text when this kind lands a hit.
    pub fn attack_label(self) -> (r: &'static str)
        ensures
            r@ == self.spec_attack_label(),
    {
        match self {
            EnemyKind::Wolf => "Wolf bite",
            EnemyKind::Bandit => "Bandit stole cargo",
            EnemyKind::BanditArcher => "Bandit arrow",
            EnemyKind::Skeleton => "Skeleton strike",
            EnemyKind::Necromancer => "Dark bolt",
            EnemyKind::AlphaWolf => "Alpha wolf maul",
            EnemyKind::ArmoredBandit => "Armored bandit strike",
        }
    }

    /// Bandits grab cargo and run for the map edge.
    pub fn steals_and_flees(self) -> (r: bool)
        ensures
            r == (self is Bandit),
    {
        match self {
            EnemyKind::Bandit => true,
            _ => false,
        }
    }
}

/// Road hazards a route can place.
#[derive(Debug, Clone, Copy, PartialEq, Eq, Structural)]
pub enum HazardKind {
    Mud,
    FallenTree,
    Rocks,
    FirePatch,
    RiverFord,
    Rockslide,
    CursedFog,
    NightStretch,
}

impl HazardKind {
    pub open spec fn spec_all() -> Seq<HazardKind> {
        seq![HazardKind::Mud, HazardKind::FallenTree, HazardKind::Rocks, HazardKind::FirePatch, HazardKind::RiverFord, HazardKind::Rockslide, HazardKind::CursedFog, HazardKind::NightStretch]
    }

    pub fn all() -> (r: [HazardKind; 8])
        ensures
            r@ == Self::spec_all(),
    {
        let r = [HazardKind::Mud, HazardKind::FallenTree, HazardKind::Rocks, HazardKind::FirePatch, HazardKind::RiverFord, HazardKind::Rockslide, HazardKind::CursedFog, HazardKind::NightStretch];
        assert(r@ =~= Self::spec_all());
        r
    }

    pub open spec fn spec_from_id(id: Seq<char>) -> Option<HazardKind> {
        if id == "mud"@ {
            Some(HazardKind::Mud)
        } else if id == "fallen_tree"@ {
            Some(HazardKind::FallenTree)
        } else if id == "rocks"@ {
            Some(HazardKind::Rocks)
        } else if id == "fire_patch"@ {
            Some(HazardKind::FirePatch)
        } else if id == "river_ford"@ {
            Some(HazardKind::RiverFord)
        } else if id == "rockslide"@ {
            Some(HazardKind::Rockslide)
        } else if id == "cursed_fog"@ {
            Some(HazardKind::CursedFog)
        } else if id == "night_stretch"@ {
            Some(HazardKind::NightStretch)
        } else {
            None
        }
    }

    /// The kind an identifier names, if it names one.
    pub fn from_id(id: &str) -> (r: Option<HazardKind>)
        ensures
            r == Self::spec_from_id(id@),
    {
        if str_eq(id, "mud") {
            Some(HazardKind::Mud)
        } else if str_eq(id, "fallen_tree") {
            Some(HazardKind::FallenTree)
        } else if str_eq(id, "rocks") {
            Some(HazardKind::Rocks)
        } else if str_eq(id, "fire_patch") {
            Some(HazardKind::FirePatch)
        } else if str_eq(id, "river_ford") {
            Some(HazardKind::RiverFord)
        } else if str_eq(id, "rockslide") {
            Some(HazardKind::Rockslide)
        } else if str_eq(id, "cursed_fog") {
            Some(HazardKind::CursedFog)
        } else if str_eq(id, "night_stretch") {
            Some(HazardKind::NightStretch)
        } else {
            None
        }
    }

    pub open spec fn spec_label(self) -> Seq<char> {
        match self {
            HazardKind::Mud => "Mud"@,
            HazardKind::FallenTree => "Fallen Tree"@,
            HazardKind::Rocks => "Rockfall"@,
            HazardKind::FirePatch => "Fire Patch"@,
            HazardKind::RiverFord => "River Ford"@,
            HazardKind::Rockslide => "Rockslide"@,
            HazardKind::CursedFog => "Cursed Fog"@,
            HazardKind::NightStretch => "Night Stretch"@,
        }
    }

    /// Display name.
    pub fn label(self) -> (r: &'static str)
        ensures
            r@ == self.spec_label(),
    {
        match self {
            HazardKind::Mud => "Mud",
            HazardKind::FallenTree => "Fallen Tree",
            HazardKind::Rocks => "Rockfall",
            HazardKind::FirePatch => "Fire Patch",
            HazardKind::RiverFord => "River Ford",
            HazardKind::Rockslide => "Rockslide",
            HazardKind::CursedFog => "Cursed Fog",
            HazardKind::NightStretch => "Night Stretch",
        }
    }

    pub open spec fn spec_effect_tag(self) -> Seq<char> {
        match self {
            HazardKind::Mud => "Slows"@,
            HazardKind::FallenTree => "Blocks"@,
            HazardKind::Rocks => "Impact"@,
            HazardKind::FirePatch => "Burns"@,
            HazardKind::RiverFord => "Wades"@,
            HazardKind::Rockslide => "Collapses"@,
            HazardKind::CursedFog => "Blinds"@,
            HazardKind::NightStretch => "Darkens"@,
        }
    }

    /// Short effect tag for the field guide.
    pub fn effect_tag(self) -> (r: &'static str)
        ensures
            r@ == self.spec_effect_tag(),
    {
        match self {
            HazardKind::Mud => "Slows",
            HazardKind::FallenTree => "Blocks",
            HazardKind::Rocks => "Impact",
            HazardKind::FirePatch => "Burns",
            HazardKind::RiverFord => "Wades",
            HazardKind::Rockslide => "Collapses",
            HazardKind::CursedFog => "Blinds",
            HazardKind::NightStretch => "Darkens",
        }
    }

    pub open spec fn spec_codex_blurb(self) -> Seq<char> {
        match self {
            HazardKind::Mud => "Bogs the wheels down for a moment. Brake early — speeding through flings mud and cargo."@,
            HazardKind::FallenTree => "A heavy trunk across the lane. A direct hit costs health and cargo, so steer around it."@,
            HazardKind::Rocks => "Loose stones that jolt the carriage on contact. Weave past to avoid the strike."@,
            HazardKind::FirePatch => "Burning ground that scorches the carriage every moment you linger. Cross it fast."@,
            HazardKind::RiverFord => "A wide crossing that drags the wheels to a crawl far longer than mud. Line up straight and power through."@,
            HazardKind::Rockslide => "A warning tremor precedes a falling wall of stone. Steer out of the marked lane before it collapses."@,
            HazardKind::CursedFog => "Cursed fog hides threats until they are close and saps cargo on entry. Keep moving and use the threat pips."@,
            HazardKind::NightStretch => "A long unlit section where the road bends without warning. Brake early and watch the changing lane markers."@,
        }
    }

    /// Behaviour note for the field guide.
    pub fn codex_blurb(self) -> (r: &'static str)
        ensures
            r@ == self.spec_codex_blurb(),
    {
        match self {
            HazardKind::Mud => "Bogs the wheels down for a moment. Brake early — speeding through flings mud and cargo.",
            HazardKind::FallenTree => "A heavy trunk across the lane. A direct hit costs health and cargo, so steer around it.",
            HazardKind::Rocks => "Loose stones that jolt the carriage on contact. Weave past to avoid the strike.",
            HazardKind::FirePatch => "Burning ground that scorches the carriage every moment you linger. Cross it fast.",
            HazardKind::RiverFord => "A wide crossing that drags the wheels to a crawl far longer than mud. Line up straight and power through.",
            HazardKind::Rockslide => "A warning tremor precedes a falling wall of stone. Steer out of the marked lane before it collapses.",
            HazardKind::CursedFog => "Cursed fog hides threats until they are close and saps cargo on entry. Keep moving and use the threat pips.",
            HazardKind::NightStretch => "A long unlit section where the road bends without warning. Brake early and watch the changing lane markers.",
        }
    }
}

/// Phases of a finale boss encounter.
#[derive(Debug, Clone, Copy, PartialEq, Eq, Structural)]
pub enum BossPhase {
    Approach,
    First,
    Second,
    Enraged,
    Defeated,
}

impl BossPhase {
    pub open spec fn spec_label(self) -> Seq<char> {
        match self {
            BossPhase::Approach => "Telegraph"@,
            BossPhase::First => "Phase I"@,
            BossPhase::Second => "Phase II"@,
            BossPhase::Enraged => "Enraged"@,
            BossPhase::Defeated => "Defeated"@,
        }
    }

    /// HUD label of the phase.
    pub fn label(self) -> (r: &'static str)
        ensures
            r@ == self.spec_label(),
    {
        match self {
            BossPhase::Approach => "Telegraph",
            BossPhase::First => "Phase I",
            BossPhase::Second => "Phase II",
            BossPhase::Enraged => "Enraged",
            BossPhase::Defeated => "Defeated",
        }
    }
}

/// Mission types; each but plain cargo transfer adds a special meter.
#[derive(Debug, Clone, Copy, PartialEq, Eq, Structural)]
pub enum MissionKind {
    CargoTransfer,
    PrisonerEscort,
    PrincessEscort,
    MedicineRun,
    GoldShipment,
    MonsterEggTransport,
    RefugeeEscort,
    RoyalBanquetSupplies,
    SiegeSupplyRun,
    TimeDelivery,
}

impl MissionKind {
    pub open spec fn spec_from_id(id: Seq<char>) -> MissionKind {
        if id == "prisoner_escort"@ {
            MissionKind::PrisonerEscort
        } else if id == "princess_escort"@ {
            MissionKind::PrincessEscort
        } else if id == "medicine_run"@ {
            MissionKind::MedicineRun
        } else if id == "gold_shipment"@ {
            MissionKind::GoldShipment
        } else if id == "monster_egg_transport"@ {
            MissionKind::MonsterEggTransport
        } else if id == "refugee_escort"@ {
            MissionKind::RefugeeEscort
        } else if id == "royal_banquet_supplies"@ {
            MissionKind::RoyalBanquetSupplies
        } else if id == "siege_supply_run"@ {
            MissionKind::SiegeSupplyRun
        } else if id == "time_delivery"@ {
            MissionKind::TimeDelivery
        } else {
            MissionKind::CargoTransfer
        }
    }

    /// The kind a mission-type identifier names; unknown ones are plain cargo transfers.
    pub fn from_id(id: &str) -> (r: MissionKind)
        ensures
            r == Self::spec_from_id(id@),
    {
        if str_eq(id, "prisoner_escort") {
            MissionKind::PrisonerEscort
        } else if str_eq(id, "princess_escort") {
            MissionKind::PrincessEscort
        } else if str_eq(id, "medicine_run") {
            MissionKind::MedicineRun
        } else if str_eq(id, "gold_shipment") {
            MissionKind::GoldShipment
        } else if str_eq(id, "monster_egg_transport") {
            MissionKind::MonsterEggTransport
        } else if str_eq(id, "refugee_escort") {
            MissionKind::RefugeeEscort
        } else if str_eq(id, "royal_banquet_supplies") {
            MissionKind::RoyalBanquetSupplies
        } else if str_eq(id, "siege_supply_run") {
            MissionKind::SiegeSupplyRun
        } else if str_eq(id, "time_delivery") {
            MissionKind::TimeDelivery
        } else {
            MissionKind::CargoTransfer
        }
    }

    /// Name of the special meter, if the kind has one.
    pub open spec fn spec_label(self) -> Option<Seq<char>> {
        match self {
            MissionKind::CargoTransfer => None,
            MissionKind::PrisonerEscort => Some("Security"@),
            MissionKind::PrincessEscort => Some("Comfort"@),
            MissionKind::MedicineRun => Some("Potency"@),
            MissionKind::GoldShipment => Some("Gold"@),
            MissionKind::MonsterEggTransport => Some("Stability"@),
            MissionKind::RefugeeEscort => Some("Safety"@),
            MissionKind::RoyalBanquetSupplies => Some("Freshness"@),
            MissionKind::SiegeSupplyRun => Some("Momentum"@),
            MissionKind::TimeDelivery => Some("Deadline"@),
        }
    }

    pub fn label(self) -> (r: Option<&'static str>)
        ensures
            match r {
                Some(s) => self.spec_label() == Some(s@),
                None => self.spec_label() is None,
            },
    {
        match self {
            MissionKind::CargoTransfer => None,
            MissionKind::PrisonerEscort => Some("Security"),
            MissionKind::PrincessEscort => Some("Comfort"),
            MissionKind::MedicineRun => Some("Potency"),
            MissionKind::GoldShipment => Some("Gold"),
            MissionKind::MonsterEggTransport => Some("Stability"),
            MissionKind::RefugeeEscort => Some("Safety"),
            MissionKind::RoyalBanquetSupplies => Some("Freshness"),
            MissionKind::SiegeSupplyRun => Some("Momentum"),
            MissionKind::TimeDelivery => Some("Deadline"),
        }
    }
}

/// Carriage equipment that can occupy a loadout slot.
#[derive(Debug, Clone, Copy, PartialEq, Eq, Structural)]
pub enum CarriageEquipment {
    IronPlating,
    ReinforcedWheels,
    CargoStraps,
    RepairKit,
}

impl CarriageEquipment {
    pub open spec fn spec_from_id(id: Seq<char>) -> CarriageEquipment {
        if id == "reinforced_wheels"@ {
            CarriageEquipment::ReinforcedWheels
        } else if id == "cargo_straps"@ {
            CarriageEquipment::CargoStraps
        } else if id == "repair_kit"@ {
            CarriageEquipment::RepairKit
        } else {
            CarriageEquipment::IronPlating
        }
    }

    /// The equipment an identifier names; unknown ones read as iron plating.
    pub fn from_id(id: &str) -> (r: CarriageEquipment)
        ensures
            r == Self::spec_from_id(id@),
    {
        if str_eq(id, "reinforced_wheels") {
            CarriageEquipment::ReinforcedWheels
        } else if str_eq(id, "cargo_straps") {
            CarriageEquipment::CargoStraps
        } else if str_eq(id, "repair_kit") {
            CarriageEquipment::RepairKit
        } else {
            CarriageEquipment::IronPlating
        }
    }

    pub open spec fn spec_id(self) -> Seq<char> {
        match self {
            CarriageEquipment::IronPlating => "carriage_armor"@,
            CarriageEquipment::ReinforcedWheels => "reinforced_wheels"@,
            CarriageEquipment::CargoStraps => "cargo_straps"@,
            CarriageEquipment::RepairKit => "repair_kit"@,
        }
    }

    /// Identifier of the upgrade that installs the equipment.
    pub fn id(self) -> (r: &'static str)
        ensures
            r@ == self.spec_id(),
    {
        match self {
            CarriageEquipment::IronPlating => "carriage_armor",
            CarriageEquipment::ReinforcedWheels => "reinforced_wheels",
            CarriageEquipment::CargoStraps => "cargo_straps",
            CarriageEquipment::RepairKit => "repair_kit",
        }
    }

    pub open spec fn spec_label(self) -> Seq<char> {
        match self {
            CarriageEquipment::IronPlating => "Iron Plating"@,
            CarriageEquipment::ReinforcedWheels => "Reinforced Wheels"@,
            CarriageEquipment::CargoStraps => "Cargo Straps"@,
            CarriageEquipment::RepairKit => "Repair Kit"@,
        }
    }

    /// Display name.
    pub fn label(self) -> (r: &'static str)
        ensures
            r@ == self.spec_label(),
    {
        match self {
            CarriageEquipment::IronPlating => "Iron Plating",
            CarriageEquipment::ReinforcedWheels => "Reinforced Wheels",
            CarriageEquipment::CargoStraps => "Cargo Straps",
            CarriageEquipment::RepairKit => "Repair Kit",
        }
    }
}

/// Equipment identifiers read back as the same equipment.
pub proof fn lemma_equipment_id_round_trip(e: CarriageEquipment)
    ensures
        CarriageEquipment::spec_from_id(e.spec_id()) == e,
{
    reveal_strlit("carriage_armor");
    reveal_strlit("reinforced_wheels");
    reveal_strlit("cargo_straps");
    reveal_strlit("repair_kit");
    assert(e.spec_id() != "reinforced_wheels"@ || e == CarriageEquipment::ReinforcedWheels) by {
        if e.spec_id() == "reinforced_wheels"@ {
            assert(e.spec_id().len() == "reinforced_wheels"@.len());
        }
    }
    assert(e.spec_id() != "cargo_straps"@ || e == CarriageEquipment::CargoStraps) by {
        if e.spec_id() == "cargo_straps"@ {
            assert(e.spec_id().len() == "cargo_straps"@.len());
        }
    }
    assert(e.spec_id() != "repair_kit"@ || e == CarriageEquipment::RepairKit) by {
        if e.spec_id() == "repair_kit"@ {
            assert(e.spec_id().len() == "repair_kit"@.len());
        }
    }
}

} // verus!
