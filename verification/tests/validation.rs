use carriage_run::campaign::{CampaignState, GameConfig, MissionRecord};
use carriage_run::missions::{MissionDef, RouteChoiceDef};
use carriage_run::validation::{validate_mission_content, validate_mission_reachability};

fn test_config() -> GameConfig {
    GameConfig {
        game_name: "carriage_run".to_owned(),
        display_name: "Carriage Run".to_owned(),
        save_slot: "campaign".to_owned(),
        version: "0.1.0".to_owned(),
        starting_gold: 120,
    }
}

fn test_record() -> MissionRecord {
    MissionRecord {
        best_stars: 1,
        best_score: 100,
        best_reward: 10,
        completions: 1,
    }
}

fn test_mission(
    id: &str,
    prerequisite_missions: &[&str],
    unlock_any_missions: &[&str],
    unlock_level: u32,
) -> MissionDef {
    MissionDef {
        id: id.to_owned(),
        name: "Test Mission".to_owned(),
        order: 99,
        mission_type: "cargo_transfer".to_owned(),
        route: "Test Route".to_owned(),
        cargo: "Test Cargo".to_owned(),
        objective: "Test objective.".to_owned(),
        bonus_objective: "Test bonus.".to_owned(),
        intro_text: String::new(),
        outro_text: String::new(),
        unlock_level,
        base_reward: 100,
        enemy_mix: Vec::new(),
        hazard_mix: Vec::new(),
        route_choices: Vec::new(),
        prerequisite_missions: prerequisite_missions
            .iter()
            .map(|id| (*id).to_owned())
            .collect(),
        unlock_any_missions: unlock_any_missions
            .iter()
            .map(|id| (*id).to_owned())
            .collect(),
    }
}

#[test]
fn validation_mission_with_unknown_prerequisite_is_rejected() {
    let mission = test_mission("orphan", &["ghost_town"], &[], 1);
    let err = validate_mission_reachability(&[&mission]).unwrap_err();
    assert!(err.contains("ghost_town"), "unknown ref not named: {err}");
    assert!(err.contains("unknown mission"), "wrong category: {err}");
}

#[test]
fn validation_cyclic_prerequisites_are_flagged_unreachable() {
    // a needs b, b needs a: neither can ever unlock from a fresh campaign.
    let a = test_mission("a", &["b"], &[], 1);
    let b = test_mission("b", &["a"], &[], 1);
    let err = validate_mission_reachability(&[&a, &b]).unwrap_err();
    assert!(err.contains("unreachable"), "cycle not detected: {err}");
}

#[test]
fn validation_linear_prerequisite_chain_is_reachable() {
    let start = test_mission("start", &[], &[], 1);
    let middle = test_mission("middle", &["start"], &[], 1);
    let end = test_mission("end", &["middle"], &[], 1);
    assert!(validate_mission_reachability(&[&start, &middle, &end]).is_ok());
}

#[test]
fn validation_unknown_enemy_or_hazard_ids_are_rejected() {
    let mut mission = test_mission("bad_mission", &[], &[], 1);
    mission.enemy_mix = vec!["wolf".to_owned(), "dragon".to_owned()];
    mission.hazard_mix = vec!["lava".to_owned()];

    let err = validate_mission_content(&[&mission]).unwrap_err();
    assert!(err.contains("dragon"), "missing enemy id in error: {err}");
    assert!(err.contains("lava"), "missing hazard id in error: {err}");
}

#[test]
fn validation_route_choice_content_ids_are_validated() {
    let mut mission = test_mission("choice_mission", &[], &[], 1);
    mission.route_choices = vec![RouteChoiceDef {
        id: "risky_cut".to_owned(),
        name: "Risky Cut".to_owned(),
        description: "test".to_owned(),
        reward_delta: 0,
        enemy_add: vec!["griffon".to_owned()],
        hazard_add: Vec::new(),
    }];

    let err = validate_mission_content(&[&mission]).unwrap_err();
    assert!(
        err.contains("choice_mission/risky_cut"),
        "route choice not located in error: {err}"
    );
    assert!(err.contains("griffon"), "missing enemy id in error: {err}");
}

#[test]
fn validation_mission_unlock_requires_completed_path() {
    let config = test_config();
    let mut campaign = CampaignState::new(&config, Some("muddy_road"));
    let mission = test_mission("medicine_run", &["muddy_road"], &["bandit_bend"], 1);

    assert!(!campaign.is_mission_unlocked(&mission));

    campaign
        .records
        .insert("muddy_road".to_owned(), test_record());
    assert!(!campaign.is_mission_unlocked(&mission));

    campaign
        .records
        .insert("bandit_bend".to_owned(), test_record());
    assert!(campaign.is_mission_unlocked(&mission));
}

#[test]
fn tests_mission_with_unknown_prerequisite_is_rejected() {
    let mission = test_mission("orphan", &["ghost_town"], &[], 1);
    let err = validate_mission_reachability(&[&mission]).unwrap_err();
    assert!(err.contains("ghost_town"), "unknown ref not named: {err}");
    assert!(err.contains("unknown mission"), "wrong category: {err}");
}

#[test]
fn tests_cyclic_prerequisites_are_flagged_unreachable() {
    // a needs b, b needs a: neither can ever unlock from a fresh campaign.
    let a = test_mission("a", &["b"], &[], 1);
    let b = test_mission("b", &["a"], &[], 1);
    let err = validate_mission_reachability(&[&a, &b]).unwrap_err();
    assert!(err.contains("unreachable"), "cycle not detected: {err}");
}

#[test]
fn tests_linear_prerequisite_chain_is_reachable() {
    let start = test_mission("start", &[], &[], 1);
    let middle = test_mission("middle", &["start"], &[], 1);
    let end = test_mission("end", &["middle"], &[], 1);
    assert!(validate_mission_reachability(&[&start, &middle, &end]).is_ok());
}

#[test]
fn tests_unknown_enemy_or_hazard_ids_are_rejected() {
    let mut mission = test_mission("bad_mission", &[], &[], 1);
    mission.enemy_mix = vec!["wolf".to_owned(), "dragon".to_owned()];
    mission.hazard_mix = vec!["lava".to_owned()];

    let err = validate_mission_content(&[&mission]).unwrap_err();
    assert!(err.contains("dragon"), "missing enemy id in error: {err}");
    assert!(err.contains("lava"), "missing hazard id in error: {err}");
}

#[test]
fn tests_route_choice_content_ids_are_validated() {
    let mut mission = test_mission("choice_mission", &[], &[], 1);
    mission.route_choices = vec![RouteChoiceDef {
        id: "risky_cut".to_owned(),
        name: "Risky Cut".to_owned(),
        description: "test".to_owned(),
        reward_delta: 0,
        enemy_add: vec!["griffon".to_owned()],
        hazard_add: Vec::new(),
    }];

    let err = validate_mission_content(&[&mission]).unwrap_err();
    assert!(
        err.contains("choice_mission/risky_cut"),
        "route choice not located in error: {err}"
    );
    assert!(err.contains("griffon"), "missing enemy id in error: {err}");
}

#[test]
fn tests_mission_unlock_requires_completed_path() {
    let config = test_config();
    let mut campaign = CampaignState::new(&config, Some("muddy_road"));
    let mission = test_mission("medicine_run", &["muddy_road"], &["bandit_bend"], 1);

    assert!(!campaign.is_mission_unlocked(&mission));

    campaign
        .records
        .insert("muddy_road".to_owned(), test_record());
    assert!(!campaign.is_mission_unlocked(&mission));

    campaign
        .records
        .insert("bandit_bend".to_owned(), test_record());
    assert!(campaign.is_mission_unlocked(&mission));
}
