use carriage_run::campaign::{CampaignState, DifficultyPreset, GameConfig, MissionRecord, UpgradeDef};
use carriage_run::guards::GuardKind;
use carriage_run::journey::LegReward;
use carriage_run::missions::{first_mission_id, MissionDef, RouteChoiceDef};
use carriage_run::session::{find_mission, GameSession, RewardBreakdown, RunReport, Screen, REINFORCED_KIT_COST};

fn config() -> GameConfig {
    GameConfig {
        game_name: "carriage_run".to_owned(),
        display_name: "Carriage Run".to_owned(),
        save_slot: "campaign".to_owned(),
        version: "0.1.0".to_owned(),
        starting_gold: 120,
    }
}

fn upgrade(id: &str, base_cost: i64, max_level: u32) -> UpgradeDef {
    UpgradeDef {
        id: id.to_owned(),
        name: id.to_owned(),
        description: String::new(),
        base_cost,
        max_level,
    }
}

fn mission(id: &str, order: u32, prereqs: &[&str], any: &[&str], unlock_level: u32) -> MissionDef {
    MissionDef {
        id: id.to_owned(),
        name: "Test Mission".to_owned(),
        order,
        mission_type: "cargo_transfer".to_owned(),
        route: "Test Route".to_owned(),
        cargo: "Test Cargo".to_owned(),
        objective: String::new(),
        bonus_objective: String::new(),
        intro_text: String::new(),
        outro_text: String::new(),
        unlock_level,
        base_reward: 100,
        enemy_mix: Vec::new(),
        hazard_mix: Vec::new(),
        route_choices: Vec::new(),
        prerequisite_missions: prereqs.iter().map(|s| (*s).to_owned()).collect(),
        unlock_any_missions: any.iter().map(|s| (*s).to_owned()).collect(),
    }
}

fn route(id: &str) -> RouteChoiceDef {
    RouteChoiceDef {
        id: id.to_owned(),
        name: id.to_owned(),
        description: String::new(),
        reward_delta: 0,
        enemy_add: Vec::new(),
        hazard_add: Vec::new(),
    }
}

fn report(success: bool, stars: u8, score: i64, reward: i64) -> RunReport {
    RunReport {
        mission_id: "muddy_road".to_owned(),
        success,
        stars,
        score,
        reward,
        gold_penalty: 0,
        injured_guard_ids: Vec::new(),
    }
}

fn record() -> MissionRecord {
    MissionRecord { best_stars: 1, best_score: 100, best_reward: 10, completions: 1 }
}

#[test]
fn fresh_campaign_defaults() {
    let c = CampaignState::new(&config(), None);
    assert_eq!(c.gold, 120);
    assert_eq!(c.selected_mission_id, "muddy_road");
    assert_eq!(c.hired_guard_ids, vec!["swordsman".to_owned(), "archer".to_owned()]);
    assert_eq!(c.selected_guard_id, "swordsman");
    assert_eq!(c.selected_equipment_ids, vec!["carriage_armor".to_owned()]);
    assert_eq!(c.difficulty_preset, DifficultyPreset::Standard);
    assert_eq!(c.guard_slot_count(), 2);
    assert_eq!(c.upgrade_level("guard_training"), 1);
    assert_eq!(c.upgrade_level("unknown_track"), 0);
    let chosen = CampaignState::new(&config(), Some("bandit_bend"));
    assert_eq!(chosen.selected_mission_id, "bandit_bend");
}

#[test]
fn upgrades_stop_at_their_max_level() {
    let mut session = GameSession::new(&config(), None);
    session.campaign.gold = 1000;
    let wheels = upgrade("reinforced_wheels", 40, 2);
    assert_eq!(session.campaign.upgrade_cost(&wheels), Some(40));
    assert!(session.buy_upgrade(&wheels));
    assert_eq!(session.campaign.wheel_level, 1);
    assert_eq!(session.campaign.upgrade_cost(&wheels), Some(80));
    assert!(session.buy_upgrade(&wheels));
    assert_eq!(session.campaign.gold, 1000 - 40 - 80);
    assert_eq!(session.campaign.upgrade_cost(&wheels), None);
    assert!(!session.buy_upgrade(&wheels));
    assert_eq!(session.campaign.gold, 880);
}

#[test]
fn hiring_is_refused_when_locked_owned_or_poor() {
    let mut session = GameSession::new(&config(), None);
    // Shield guards need carriage level 2.
    assert!(!session.hire_guard("shield_guard"));
    assert!(!session.campaign.is_guard_unlocked(GuardKind::ShieldGuard));
    // Already hired.
    assert!(!session.hire_guard("swordsman"));
    session.campaign.carriage_level = 3;
    session.campaign.gold = 100;
    assert!(!session.hire_guard("spearman"));
    assert_eq!(session.campaign.gold, 100);
    assert_eq!(session.campaign.guard_hire_cost(GuardKind::Spearman), 170);
    assert!(!session.campaign.can_hire_guard(GuardKind::Spearman));
}

#[test]
fn guard_stars_climb_to_three() {
    let mut session = GameSession::new(&config(), None);
    session.campaign.gold = 1000;
    assert_eq!(session.campaign.guard_star_level(GuardKind::Swordsman), 1);
    assert_eq!(session.campaign.guard_star_upgrade_cost(GuardKind::Swordsman), Some(90));
    assert!(session.upgrade_guard_star("swordsman"));
    assert_eq!(session.campaign.guard_star_upgrade_cost(GuardKind::Swordsman), Some(160));
    assert!(session.upgrade_guard_star("swordsman"));
    assert_eq!(session.campaign.guard_star_level(GuardKind::Swordsman), 3);
    assert_eq!(session.campaign.guard_star_upgrade_cost(GuardKind::Swordsman), None);
    assert!(!session.upgrade_guard_star("swordsman"));
    assert_eq!(session.campaign.gold, 1000 - 90 - 160);
    // Not hired: no stars to buy.
    assert!(!session.upgrade_guard_star("mage"));
}

#[test]
fn injured_guard_treatment_price() {
    let mut session = GameSession::new(&config(), None);
    let mut r = report(false, 0, 0, 0);
    r.injured_guard_ids = vec!["swordsman".to_owned(), "mage".to_owned()];
    session.apply_report(r);
    assert_eq!(session.campaign.guard_recovery_missions(GuardKind::Swordsman), 3);
    // The mage is not hired, so it is not benched.
    assert_eq!(session.campaign.guard_recovery_missions(GuardKind::Mage), 0);
    assert_eq!(session.campaign.guard_treat_cost(GuardKind::Swordsman), Some(75));
    assert!(!session.campaign.is_guard_available(GuardKind::Swordsman));
    session.campaign.gold = 74;
    assert!(!session.treat_guard("swordsman"));
    session.campaign.gold = 75;
    assert!(session.treat_guard("swordsman"));
    assert_eq!(session.campaign.gold, 0);
    assert!(session.campaign.is_guard_available(GuardKind::Swordsman));
}

#[test]
fn successful_runs_keep_best_records() {
    let mut session = GameSession::new(&config(), None);
    session.apply_report(report(true, 2, 500, 80));
    session.apply_report(report(true, 1, 700, 60));
    session.apply_report(report(false, 3, 900, 10));
    let rec = *session.campaign.records.get("muddy_road").unwrap();
    assert_eq!(rec.completions, 2);
    assert_eq!(rec.best_stars, 2);
    assert_eq!(rec.best_score, 700);
    assert_eq!(rec.best_reward, 80);
    assert_eq!(session.campaign.gold, 120 + 80 + 60 + 10);
    assert!(session.campaign.is_mission_completed("muddy_road"));
    assert!(!session.campaign.is_mission_completed("bandit_bend"));
}

#[test]
fn unlock_labels_name_the_missing_step() {
    let mut c = CampaignState::new(&config(), None);
    let gated = mission("gold_shipment", 3, &[], &[], 2);
    assert_eq!(c.mission_unlock_label(&gated), "Carriage Level 2");
    let after = mission("medicine_run", 4, &["muddy_road"], &["bandit_bend", "old_bridge"], 1);
    assert_eq!(c.mission_unlock_label(&after), "Complete Muddy Road");
    c.records.insert("muddy_road".to_owned(), record());
    assert_eq!(c.mission_unlock_label(&after), "Complete Bandit Bend branch");
    c.records.insert("old_bridge".to_owned(), record());
    assert!(c.is_mission_unlocked(&after));
    assert_eq!(c.mission_unlock_label(&after), "Locked");
}

#[test]
fn route_choices_are_remembered_per_mission() {
    let mut m = mission("muddy_road", 1, &[], &[], 1);
    m.route_choices = vec![route("ridge"), route("ford")];
    let missions = vec![m, mission("bandit_bend", 2, &["muddy_road"], &[], 1)];
    let mut session = GameSession::new(&config(), Some("muddy_road"));

    assert_eq!(session.campaign.selected_route_choice_id(&missions[0]), Some("ridge"));
    assert!(session.select_route_choice(&missions, "ford"));
    assert_eq!(session.campaign.selected_route_choice_id(&missions[0]), Some("ford"));
    assert!(!session.select_route_choice(&missions, "swamp"));
    assert_eq!(session.campaign.selected_route_choice_id(&missions[0]), Some("ford"));

    session.select_mission("bandit_bend");
    assert!(!session.select_route_choice(&missions, "ford"));
    assert_eq!(session.campaign.selected_route_choice_id(&missions[1]), None);
}

#[test]
fn starting_a_mission_needs_it_unlocked_and_spends_a_kit() {
    let missions = vec![
        mission("muddy_road", 1, &[], &[], 1),
        mission("bandit_bend", 2, &["muddy_road"], &[], 1),
    ];
    let mut session = GameSession::new(&config(), Some("muddy_road"));
    session.campaign.gold = REINFORCED_KIT_COST;
    assert!(session.buy_reinforced_kit());
    assert_eq!(session.campaign.reinforced_kits, 1);
    assert!(!session.buy_reinforced_kit());

    assert!(session.start_selected_mission(&missions));
    assert_eq!(session.screen, Screen::Playing);
    assert!(session.mission_active);
    assert_eq!(session.campaign.reinforced_kits, 0);

    session.open_map();
    session.select_mission("bandit_bend");
    assert!(!session.start_selected_mission(&missions));
    assert_eq!(session.screen, Screen::MissionMap);
    session.select_mission("nowhere");
    assert!(!session.start_selected_mission(&missions));

    // No run has finished yet, so there is nothing to retry.
    assert!(!session.retry_result_mission(&missions));
    assert_eq!(session.campaign.selected_mission_id, "nowhere");
}

#[test]
fn the_last_result_can_be_retried_and_clears_on_start() {
    let missions = vec![mission("muddy_road", 1, &[], &[], 1)];
    let mut session = GameSession::new(&config(), Some("muddy_road"));
    assert!(session.result.is_none());
    assert!(session.start_selected_mission(&missions));
    let report = RunReport {
        mission_id: "muddy_road".to_owned(),
        success: false,
        stars: 0,
        score: 10,
        reward: 0,
        gold_penalty: 5,
        injured_guard_ids: vec!["archer".to_owned()],
    };
    let choices = [LegReward::Bounty(1), LegReward::Bounty(2), LegReward::Bounty(3)];
    session.finish_run(report, "The Muddy Road".to_owned(), choices);
    assert_eq!(session.screen, Screen::Results);
    let last = session.result.as_ref().unwrap();
    assert_eq!(last.mission_id, "muddy_road");
    assert_eq!(last.gold_penalty, 5);
    assert_eq!(last.injured_guard_ids, vec!["archer".to_owned()]);

    session.select_mission("elsewhere");
    assert!(session.retry_result_mission(&missions));
    assert_eq!(session.campaign.selected_mission_id, "muddy_road");
    assert_eq!(session.screen, Screen::Playing);
    assert!(session.result.is_none());
}

#[test]
fn missions_are_found_by_id_and_ordered_by_order() {
    let missions = vec![
        mission("bandit_bend", 2, &[], &[], 1),
        mission("muddy_road", 1, &[], &[], 1),
        mission("old_bridge", 1, &[], &[], 1),
    ];
    assert_eq!(find_mission(&missions, "old_bridge").map(|m| m.order), Some(1));
    assert!(find_mission(&missions, "nowhere").is_none());
    assert_eq!(first_mission_id(&missions), Some("muddy_road"));
    assert_eq!(first_mission_id(&[]), None);
}

#[test]
fn campaign_toggles_and_difficulty() {
    let mut session = GameSession::new(&config(), None);
    assert_eq!(session.setting_value("alerts"), "on");
    assert!(session.toggle_setting("alerts"));
    assert_eq!(session.setting_value("alerts"), "off");
    assert_eq!(session.setting_value("slower_waves"), "off");
    assert!(session.toggle_setting("slower_waves"));
    assert!(session.campaign.slower_waves);
    assert!(!session.toggle_setting("unknown"));
    assert_eq!(session.setting_value("unknown"), "off");

    assert!(!session.set_difficulty("standard"));
    assert!(!session.set_difficulty("bogus"));
    assert_eq!(DifficultyPreset::from_id("hard"), DifficultyPreset::Hard);
    assert_eq!(DifficultyPreset::from_id("bogus"), DifficultyPreset::Standard);
    assert_eq!(DifficultyPreset::Relaxed.id(), "relaxed");
    assert_eq!(DifficultyPreset::Hard.label(), "Hard");
}

#[test]
fn reward_breakdown_sums_its_parts() {
    let parts = RewardBreakdown { contract: 100, stars: 30, cargo: -5, special: 12, threats: 8, bonus_objective: 15 };
    assert_eq!(parts.total(), 160);
    assert_eq!(RewardBreakdown::default().total(), 0);
}

#[test]
fn save_round_trip_keeps_the_campaign() {
    let mut session = GameSession::new(&config(), None);
    session.campaign.gold = 333;
    let save = session.to_save("0.2.0", "2024-01-01T00:00:00Z".to_owned());
    assert_eq!(save.version, "0.2.0");
    assert_eq!(save.saved_at, "2024-01-01T00:00:00Z");
    let loaded = GameSession::from_save(save, Some("muddy_road"));
    assert_eq!(loaded.campaign.gold, 333);
    assert_eq!(loaded.screen, Screen::MissionMap);
    assert!(loaded.journey.is_none());
}

#[test]
fn saving_a_loaded_campaign_and_loading_it_gives_it_back() {
    let mut session = GameSession::new(&config(), None);
    session.campaign.gold = 512;
    session.campaign.carriage_level = 3;
    session.campaign.hired_guard_ids.push("mage".to_owned());
    session.campaign.guard_stars = [5, 0, 0, 2, 0, 1];
    session.campaign.guard_recovery = [0, 0, 0, 2, 0, 0];
    session.campaign.selected_mission_id = String::new();
    session.campaign.selected_route_choices.entries.push(("muddy_road".to_owned(), "ford".to_owned()));
    session.campaign.selected_route_choices.entries.push(("old_bridge".to_owned(), String::new()));
    session.campaign.records.entries.push((
        "muddy_road".to_owned(),
        MissionRecord { best_stars: 2, best_score: 900, best_reward: 140, completions: 3 },
    ));
    session.campaign.expedition_unlocks.push("lantern_charm".to_owned());
    session.campaign.expedition_records.runs_started = 4;
    session.campaign.expedition_records.total_legs = 9;

    // The first load repairs the campaign; saving and loading that gives it back unchanged.
    let first = GameSession::from_save(session.to_save("0.2.0", "t0".to_owned()), Some("muddy_road"));
    assert_eq!(first.campaign.selected_mission_id, "muddy_road");
    assert_eq!(first.campaign.selected_route_choices.entries.len(), 1);
    assert_eq!(first.campaign.guard_stars, [3, 0, 0, 2, 0, 1]);
    let save = first.to_save("0.2.0", "t1".to_owned());
    assert_eq!(format!("{:?}", save.campaign), format!("{:?}", first.campaign));
    let second = GameSession::from_save(save, Some("muddy_road"));
    assert_eq!(format!("{:?}", second.campaign), format!("{:?}", first.campaign));
    assert_eq!(second.campaign.gold, 512);
    assert_eq!(second.campaign.records.entries[0].1.completions, 3);
}
