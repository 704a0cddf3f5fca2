use carriage_run::campaign::{CampaignState, GameConfig};
use carriage_run::equipment::CarriageVisual;
use carriage_run::guards::GuardKind;
use carriage_run::keyed::KeyedList;
use carriage_run::kinds::CarriageEquipment;
use carriage_run::loadout::normalize_selection;
use carriage_run::records::{ExpeditionRecords, ExpeditionRunSummary};
use carriage_run::session::GameSession;

fn config() -> GameConfig {
    GameConfig {
        game_name: "carriage_run".to_owned(),
        display_name: "Carriage Run".to_owned(),
        save_slot: "campaign".to_owned(),
        version: "0.1.0".to_owned(),
        starting_gold: 120,
    }
}

fn ids(v: &[&str]) -> Vec<String> {
    v.iter().map(|s| (*s).to_owned()).collect()
}

#[test]
fn selection_keeps_hired_kinds_of_the_class_once_up_to_the_limit() {
    let hired = ids(&["swordsman", "shield_guard", "archer", "mage"]);
    let current = ids(&["mage", "shield_guard", "shield_guard", "spearman"]);
    let fallback = ids(&["swordsman"]);
    assert_eq!(normalize_selection(&current, &fallback, 3, false, &hired), ids(&["shield_guard", "swordsman"]));
    assert_eq!(normalize_selection(&current, &fallback, 1, false, &hired), ids(&["shield_guard"]));
    assert_eq!(normalize_selection(&current, &ids(&["archer"]), 2, true, &hired), ids(&["mage", "archer"]));
    assert_eq!(normalize_selection(&Vec::new(), &Vec::new(), 2, false, &hired), Vec::<String>::new());
}

#[test]
fn loaded_campaign_is_repaired() {
    let mut c = CampaignState::new(&config(), None);
    c.selected_mission_id = String::new();
    c.hired_guard_ids = ids(&["mage", "shield_guard", "ghost"]);
    c.selected_guard_ids = ids(&["mage", "shield_guard", "shield_guard", "spearman"]);
    c.selected_guard_id = "spearman".to_owned();
    c.selected_ranged_ids = ids(&["crossbow_guard", "mage", "archer"]);
    c.guard_stars = [5, 0, 2, 0, 0, 9];
    c.selected_equipment_ids = ids(&["repair_kit", "carriage_armor", "carriage_armor"]);
    c.normalize(Some("bandit_bend"));

    assert_eq!(c.selected_mission_id, "bandit_bend");
    assert_eq!(c.hired_guard_ids, ids(&["swordsman", "shield_guard", "archer", "mage"]));
    assert_eq!(c.selected_guard_ids, ids(&["shield_guard", "swordsman"]));
    assert_eq!(c.selected_guard_id, "shield_guard");
    assert_eq!(c.selected_guard_kind(), GuardKind::ShieldGuard);
    assert_eq!(c.selected_ranged_ids, ids(&["mage"]));
    assert_eq!(c.guard_stars, [3, 0, 0, 0, 0, 3]);
    assert_eq!(c.selected_equipment_ids, ids(&["carriage_armor"]));
}

#[test]
fn guard_slots_take_hired_kinds_and_lead_with_the_first() {
    let mut session = GameSession::new(&config(), None);
    session.campaign.carriage_level = 2;
    session.campaign.gold = 500;
    assert!(session.hire_guard("shield_guard"));
    assert_eq!(session.campaign.selected_guard_ids, ids(&["swordsman", "shield_guard"]));

    // The shield guard moves into slot 0, replacing the swordsman there.
    session.assign_guard_slot(0, "shield_guard");
    assert_eq!(session.campaign.selected_guard_ids, ids(&["shield_guard"]));
    assert_eq!(session.campaign.selected_guard_id, "shield_guard");
    session.assign_guard_slot(1, "swordsman");
    assert_eq!(session.campaign.selected_guard_ids, ids(&["shield_guard", "swordsman"]));

    // Ranged kinds and unhired kinds do not go into melee slots.
    let before = session.campaign.selected_guard_ids.clone();
    session.assign_guard_slot(1, "archer");
    session.assign_guard_slot(1, "spearman");
    session.assign_guard_slot(9, "swordsman");
    assert_eq!(session.campaign.selected_guard_ids, before);

    session.clear_guard_slot(0);
    assert_eq!(session.campaign.selected_guard_ids, ids(&["swordsman"]));
    assert_eq!(session.campaign.selected_guard_id, "swordsman");
    session.clear_guard_slot(0);
    assert!(session.campaign.selected_guard_ids.is_empty());
    assert_eq!(session.campaign.selected_guard_id, "swordsman");

    session.assign_ranged_slot(0, "archer");
    assert_eq!(session.campaign.selected_ranged_ids, ids(&["archer"]));
    assert_eq!(session.campaign.selected_ranged_kinds(), vec![GuardKind::Archer]);
}

#[test]
fn equipment_follows_installed_upgrades() {
    let mut c = CampaignState::new(&config(), None);
    assert_eq!(c.carriage_equipment_slot_count(), 2);
    assert!(c.is_equipment_available(CarriageEquipment::IronPlating));
    assert!(!c.is_equipment_available(CarriageEquipment::CargoStraps));
    c.cargo_level = 1;
    c.assign_equipment_slot(1, "cargo_straps");
    assert!(c.is_equipment_equipped(CarriageEquipment::CargoStraps));
    let visual = CarriageVisual::from_campaign(&c);
    assert!(visual.iron_plating && visual.cargo_straps && !visual.repair_kit);
    assert_eq!(visual.ranged_slots, 1);
    c.clear_equipment_slot(1);
    assert!(!c.is_equipment_equipped(CarriageEquipment::CargoStraps));
}

#[test]
fn keyed_list_acts_as_a_map() {
    let mut m: KeyedList<u32> = KeyedList::new();
    m.insert("a".to_owned(), 1);
    m.insert("b".to_owned(), 2);
    m.insert("a".to_owned(), 3);
    assert_eq!(m.entries.len(), 2);
    assert_eq!(m.get("a"), Some(&3));
    assert_eq!(m.get("c"), None);
    m.remove("a");
    assert_eq!(m.get("a"), None);
    assert_eq!(m.find("b"), Some(0));
}

#[test]
fn expedition_history_is_capped_newest_first() {
    let mut records = ExpeditionRecords::default();
    for legs in 1..=10u32 {
        records.record(ExpeditionRunSummary {
            seed_code: format!("S{legs}"),
            seeded: false,
            legs_cleared: legs,
            banked: (legs * 10) as i64,
            won: legs == 8,
        });
    }
    assert_eq!(records.history.len(), 8);
    assert_eq!(records.history[0].legs_cleared, 10);
    assert_eq!(records.history[7].legs_cleared, 3);
    assert_eq!(records.best_legs, 10);
    assert_eq!(records.best_banked, 100);
    assert_eq!(records.total_legs, 55);
    assert_eq!(records.wins, 1);
    assert_eq!(records.runs_started, 0);
}

#[test]
fn selection_filters_then_keeps_first_of_each_then_takes_the_limit() {
    let hired = ids(&["swordsman", "shield_guard", "archer"]);
    // Unknown ids read as the swordsman; ranged and unhired kinds drop out.
    let current = ids(&["ghost", "archer", "spearman", "shield_guard", "swordsman", "shield_guard"]);
    assert_eq!(normalize_selection(&current, &Vec::new(), 4, false, &hired), ids(&["swordsman", "shield_guard"]));
    assert_eq!(normalize_selection(&current, &Vec::new(), 0, false, &hired), ids(&["swordsman"]));
}

#[test]
fn repairing_twice_changes_nothing() {
    let mut c = CampaignState::new(&config(), None);
    c.hired_guard_ids = ids(&["mage", "shield_guard"]);
    c.selected_guard_ids = ids(&["archer", "mage"]);
    c.selected_guard_id = "mage".to_owned();
    c.selected_ranged_ids = ids(&["mage", "crossbow_guard", "mage"]);
    c.archer_level = 3;
    c.guard_stars = [0, 7, 1, 0, 2, 2];
    c.wheel_level = 1;
    c.selected_equipment_ids = ids(&["reinforced_wheels", "cargo_straps", "reinforced_wheels"]);
    c.normalize(None);
    let once = (
        c.hired_guard_ids.clone(),
        c.selected_guard_ids.clone(),
        c.selected_guard_id.clone(),
        c.selected_ranged_ids.clone(),
        c.guard_stars,
        c.selected_equipment_ids.clone(),
    );
    assert_eq!(c.selected_ranged_ids, ids(&["mage", "archer"]));
    assert_eq!(c.selected_equipment_ids, ids(&["reinforced_wheels", "carriage_armor"]));
    c.normalize(None);
    let twice = (
        c.hired_guard_ids.clone(),
        c.selected_guard_ids.clone(),
        c.selected_guard_id.clone(),
        c.selected_ranged_ids.clone(),
        c.guard_stars,
        c.selected_equipment_ids.clone(),
    );
    assert_eq!(once, twice);
}
