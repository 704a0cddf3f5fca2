use carriage_run::campaign::{CampaignState, GameConfig, MissionRecord};
use carriage_run::flow::{
    migrated_save, save_from_campaign, save_from_points, PadAction, PadFrame, Refusal,
};
use carriage_run::guards::GuardKind;
use carriage_run::journey::LegReward;
use carriage_run::missions::{resolve_route, MissionDef, RouteChoiceDef};
use carriage_run::session::{ConfirmPrompt, GameSession, RunReport, Screen};

fn config() -> GameConfig {
    GameConfig {
        game_name: "carriage_run".to_owned(),
        display_name: "Carriage Run".to_owned(),
        save_slot: "campaign".to_owned(),
        version: "0.1.0".to_owned(),
        starting_gold: 120,
    }
}

fn route(id: &str, name: &str, reward_delta: i64, enemy: &[&str], hazard: &[&str]) -> RouteChoiceDef {
    RouteChoiceDef {
        id: id.to_owned(),
        name: name.to_owned(),
        description: String::new(),
        reward_delta,
        enemy_add: enemy.iter().map(|s| (*s).to_owned()).collect(),
        hazard_add: hazard.iter().map(|s| (*s).to_owned()).collect(),
    }
}

fn mission() -> MissionDef {
    MissionDef {
        id: "muddy_road".to_owned(),
        name: "The Muddy Road".to_owned(),
        order: 2,
        mission_type: "cargo_transfer".to_owned(),
        route: "Forest Road".to_owned(),
        cargo: String::new(),
        objective: String::new(),
        bonus_objective: String::new(),
        intro_text: String::new(),
        outro_text: String::new(),
        unlock_level: 1,
        base_reward: 100,
        enemy_mix: vec!["wolf".to_owned()],
        hazard_mix: vec!["mud".to_owned()],
        route_choices: vec![
            route("ab", "Ridge Path", 25, &["bandit"], &["rocks"]),
            route("ford", "River Ford", -150, &[], &["river_ford"]),
        ],
        prerequisite_missions: Vec::new(),
        unlock_any_missions: Vec::new(),
    }
}

fn report(success: bool) -> RunReport {
    RunReport {
        mission_id: "muddy_road".to_owned(),
        success,
        stars: 1,
        score: 10,
        reward: 30,
        gold_penalty: 0,
        injured_guard_ids: Vec::new(),
    }
}

#[test]
fn campaign_route_takes_the_selected_branch() {
    let m = mission();
    let mut c = CampaignState::new(&config(), Some("muddy_road"));
    c.records.insert(
        "muddy_road".to_owned(),
        MissionRecord { best_stars: 1, best_score: 1, best_reward: 1, completions: 1 },
    );
    // No stored choice: the first branch.
    let setup = resolve_route(&m, &c, None);
    assert_eq!(setup.route_name, "Ridge Path");
    assert_eq!(setup.enemy_mix, vec!["wolf".to_owned(), "bandit".to_owned()]);
    assert_eq!(setup.hazard_mix, vec!["mud".to_owned(), "rocks".to_owned()]);
    assert_eq!(setup.base_reward, 125);
    // 2 * 10007 + 1 completion + fold("ab") = 20014 + 1 + (97 * 37 + 98).
    assert_eq!(setup.seed, 20014 + 1 + 3687);

    assert!(c.select_route_choice(&m, "ford"));
    let setup = resolve_route(&m, &c, None);
    assert_eq!(setup.route_name, "River Ford");
    assert_eq!(setup.base_reward, 0);
    assert_eq!(setup.enemy_mix, vec!["wolf".to_owned()]);
    assert_eq!(setup.hazard_mix, vec!["mud".to_owned(), "river_ford".to_owned()]);
}

#[test]
fn expedition_route_ignores_branches_and_uses_its_seed() {
    let m = mission();
    let c = CampaignState::new(&config(), Some("muddy_road"));
    let setup = resolve_route(&m, &c, Some(987_654_321));
    assert_eq!(setup.route_name, "Forest Road");
    assert_eq!(setup.enemy_mix, vec!["wolf".to_owned()]);
    assert_eq!(setup.hazard_mix, vec!["mud".to_owned()]);
    assert_eq!(setup.base_reward, 100);
    assert_eq!(setup.seed, 987_654_321);

    let mut plain = mission();
    plain.route_choices.clear();
    let setup = resolve_route(&plain, &c, None);
    assert_eq!(setup.route_name, "Forest Road");
    assert_eq!(setup.seed, 20014);
}

#[test]
fn refusal_reasons_name_what_is_missing() {
    let mut c = CampaignState::new(&config(), None);
    assert_eq!(c.hire_refusal(GuardKind::ShieldGuard), Some(Refusal::Locked));
    assert_eq!(c.hire_refusal(GuardKind::Swordsman), Some(Refusal::AlreadyHired));
    c.carriage_level = 2;
    c.gold = 10;
    assert_eq!(c.hire_refusal(GuardKind::ShieldGuard), Some(Refusal::NotEnoughGold));
    c.gold = 500;
    assert_eq!(c.hire_refusal(GuardKind::ShieldGuard), None);
    assert_eq!(c.star_refusal(GuardKind::Archer), None);
    assert_eq!(c.star_refusal(GuardKind::Mage), Some(Refusal::NotEnoughGold));
    c.guard_stars[GuardKind::Archer.position()] = 3;
    assert_eq!(c.star_refusal(GuardKind::Archer), Some(Refusal::AtMaxStars));
    c.gold = 0;
    assert_eq!(c.star_refusal(GuardKind::Swordsman), Some(Refusal::NotEnoughGold));
}

#[test]
fn old_saves_are_brought_up_to_date() {
    let legacy = save_from_points(&config(), Some("muddy_road"), Some(42), "now".to_owned());
    assert_eq!(legacy.version, "0.1.0");
    assert_eq!(legacy.campaign.gold, 42);
    assert_eq!(legacy.campaign.selected_mission_id, "muddy_road");
    assert_eq!(legacy.saved_at, "now");
    assert_eq!(save_from_points(&config(), None, Some(-7), "t".to_owned()).campaign.gold, 0);
    assert_eq!(save_from_points(&config(), None, None, "t".to_owned()).campaign.gold, 120);

    let mut c = CampaignState::new(&config(), None);
    c.hired_guard_ids = vec!["mage".to_owned()];
    let bare = save_from_campaign(c, &config(), None, "t".to_owned());
    assert_eq!(bare.campaign.hired_guard_ids, vec!["swordsman".to_owned(), "archer".to_owned(), "mage".to_owned()]);

    let session = GameSession::new(&config(), None);
    let old = session.to_save("0.0.9", "1970-01-01T00:00:00Z".to_owned());
    let current = migrated_save(old, &config(), None, "2024-05-01T00:00:00Z".to_owned());
    assert_eq!(current.version, "0.1.0");
    assert_eq!(current.saved_at, "2024-05-01T00:00:00Z");
    let kept = migrated_save(current, &config(), None, "later".to_owned());
    assert_eq!(kept.saved_at, "2024-05-01T00:00:00Z");
}

#[test]
fn finished_runs_go_to_results_or_the_expedition() {
    let choices = [LegReward::Bounty(10), LegReward::Provisions { gold: 5, heal_percent: 25 }, LegReward::Repair { gold: 2 }];
    let mut session = GameSession::new(&config(), Some("muddy_road"));
    session.finish_run(report(true), "The Muddy Road".to_owned(), choices.clone());
    assert_eq!(session.screen, Screen::Results);
    assert_eq!(session.campaign.gold, 150);
    assert!(session.campaign.is_mission_completed("muddy_road"));

    let mut session = GameSession::new(&config(), Some("muddy_road"));
    session.start_journey(2);
    session.finish_run(report(true), "The Muddy Road".to_owned(), choices);
    assert_eq!(session.screen, Screen::Journey);
    assert_eq!(session.campaign.gold, 120);
    assert!(session.journey.as_ref().unwrap().pending_rewards.is_some());
    assert!(!session.campaign.is_mission_completed("muddy_road"));
}

fn pad(confirm: bool, cancel: bool, menu: bool, secondary: bool) -> PadFrame {
    PadFrame { connected: true, confirm, cancel, menu, secondary }
}

#[test]
fn gamepad_presses_map_to_actions() {
    let mut session = GameSession::new(&config(), None);
    let off = PadFrame { connected: false, confirm: true, cancel: false, menu: false, secondary: false };
    assert_eq!(session.pad_action(off, false), PadAction::Nothing);
    assert_eq!(session.pad_action(pad(true, false, false, false), false), PadAction::RequestNewCampaign);
    assert_eq!(session.pad_action(pad(true, false, false, false), true), PadAction::ContinueCampaign);
    assert_eq!(session.pad_action(pad(false, false, true, false), true), PadAction::OpenSettings);

    session.pending_confirm = Some(ConfirmPrompt::NewCampaign);
    assert_eq!(session.pad_action(pad(true, false, false, false), true), PadAction::NewCampaign);
    assert_eq!(session.pad_action(pad(true, true, false, false), true), PadAction::DismissConfirm);
    session.pending_confirm = None;

    session.open_map();
    assert_eq!(session.pad_action(pad(true, false, false, false), true), PadAction::OpenLoadout);
    assert_eq!(session.pad_action(pad(false, true, false, false), true), PadAction::ReturnTitle);
    session.open_shop();
    assert_eq!(session.pad_action(pad(false, true, false, false), true), PadAction::OpenMap);
    assert_eq!(session.pad_action(pad(true, false, false, false), true), PadAction::Nothing);
    session.open_loadout();
    assert_eq!(session.pad_action(pad(true, false, false, false), true), PadAction::BeginMission);
}
