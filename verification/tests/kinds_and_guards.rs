use carriage_run::guards::GuardKind;
use carriage_run::kinds::{BossPhase, CarriageEquipment, EnemyKind, HazardKind, MissionKind};

#[test]
fn guard_ids_round_trip_and_classes_split() {
    for kind in GuardKind::all() {
        assert_eq!(GuardKind::from_id(kind.id()), kind);
        assert_ne!(kind.is_melee(), kind.is_ranged());
    }
    assert_eq!(GuardKind::from_id("dragon_rider"), GuardKind::Swordsman);
    assert_eq!(GuardKind::melee_all(), [GuardKind::Swordsman, GuardKind::ShieldGuard, GuardKind::Spearman]);
    assert_eq!(GuardKind::ranged_all(), [GuardKind::Archer, GuardKind::CrossbowGuard, GuardKind::Mage]);
    let positions: Vec<usize> = GuardKind::all().iter().map(|k| k.position()).collect();
    assert_eq!(positions, vec![0, 1, 2, 3, 4, 5]);
}

#[test]
fn guard_prices_and_gates() {
    assert_eq!(GuardKind::Mage.hire_cost(), 190);
    assert_eq!(GuardKind::CrossbowGuard.unlock_level(), 2);
    assert_eq!(GuardKind::Spearman.star_upgrade_cost(1), Some(145));
    assert_eq!(GuardKind::ShieldGuard.star_upgrade_cost(2), Some(205));
    assert_eq!(GuardKind::Archer.star_upgrade_cost(3), None);
    assert_eq!(GuardKind::Archer.label(), "Archer");
    assert_eq!(GuardKind::ShieldGuard.id(), "shield_guard");
    assert_eq!(GuardKind::Mage.ability_summary(2), "2*: Splash damage around the target.");
    assert_eq!(
        GuardKind::Swordsman.description(),
        "Balanced melee guard with reliable damage and speed."
    );
}

#[test]
fn enemy_and_hazard_ids_resolve() {
    for kind in EnemyKind::all() {
        assert!(!kind.label().is_empty());
    }
    assert_eq!(EnemyKind::from_id("bandit_archer"), Some(EnemyKind::BanditArcher));
    assert_eq!(EnemyKind::from_id("dragon"), None);
    assert!(EnemyKind::Bandit.steals_and_flees());
    assert!(!EnemyKind::Wolf.steals_and_flees());
    assert_eq!(EnemyKind::Necromancer.threat_tag(), "Summoner");
    assert_eq!(EnemyKind::AlphaWolf.attack_label(), "Alpha wolf maul");
    assert_eq!(HazardKind::from_id("rocks"), Some(HazardKind::Rocks));
    assert_eq!(HazardKind::Rocks.label(), "Rockfall");
    assert_eq!(HazardKind::from_id("lava"), None);
    assert_eq!(HazardKind::NightStretch.effect_tag(), "Darkens");
    assert_eq!(HazardKind::all().len(), 8);
}

#[test]
fn mission_kinds_equipment_and_boss_phases() {
    assert_eq!(MissionKind::from_id("princess_escort").label(), Some("Comfort"));
    assert_eq!(MissionKind::from_id("cargo_transfer").label(), None);
    assert_eq!(MissionKind::from_id("anything_else").label(), None);
    assert_eq!(CarriageEquipment::from_id("cargo_straps"), CarriageEquipment::CargoStraps);
    assert_eq!(CarriageEquipment::from_id("anything"), CarriageEquipment::IronPlating);
    assert_eq!(CarriageEquipment::IronPlating.id(), "carriage_armor");
    assert_eq!(CarriageEquipment::RepairKit.label(), "Repair Kit");
    assert_eq!(BossPhase::Approach.label(), "Telegraph");
    assert_eq!(BossPhase::Enraged.label(), "Enraged");
}
