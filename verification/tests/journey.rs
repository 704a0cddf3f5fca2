use carriage_run::campaign::GameConfig;
use carriage_run::journey::{Journey, LegOption, LegReward};
use carriage_run::session::{GameSession, Screen};

fn config() -> GameConfig {
    GameConfig {
        game_name: "carriage_run".to_owned(),
        display_name: "Carriage Run".to_owned(),
        save_slot: "campaign".to_owned(),
        version: "0.1.0".to_owned(),
        starting_gold: 120,
    }
}

fn choices() -> [LegReward; 3] {
    [
        LegReward::Relic("lucky_charm".to_owned()),
        LegReward::Provisions { gold: 52, heal_percent: 25 },
        LegReward::Repair { gold: 17 },
    ]
}

#[test]
fn leg_rewards_escalate_with_depth() {
    assert_eq!(Journey::leg_reward(0), 30);
    assert_eq!(Journey::leg_reward(1), 52);
    assert_eq!(Journey::leg_reward(3), 96);
}

#[test]
fn expedition_offers_rewards_then_banks_the_pick_and_advances() {
    let mut session = GameSession::new(&config(), Some("muddy_road"));
    assert_eq!(session.start_journey(3), Some(0));
    assert_eq!(session.screen, Screen::Playing);
    assert!(session.mission_active);
    assert_eq!(session.journey.as_ref().unwrap().leg, 1);

    session.resolve_journey_leg(true, "The Muddy Road".to_owned(), choices());
    // Clearing a leg stages rewards and leaves the campaign alone.
    assert_eq!(session.campaign.gold, 120);
    let journey = session.journey.as_ref().unwrap();
    assert_eq!(journey.leg, 1);
    assert!(journey.pending_rewards.is_some());
    assert_eq!(journey.last_mission_name, "The Muddy Road");
    assert_eq!(session.screen, Screen::Journey);
    assert!(!session.mission_active);

    // Pressing on is blocked until a reward is chosen.
    assert_eq!(session.journey_press_on(3), None);
    assert!(!session.journey_choose_reward(3));

    assert!(session.journey_choose_reward(1));
    let journey = session.journey.as_ref().unwrap();
    assert_eq!(journey.leg, 2);
    assert!(journey.pending_rewards.is_none());
    assert_eq!(journey.banked_gold, 52);
    assert_eq!(journey.last_reward, 52);

    // Leg 2 runs the second route of the pool.
    assert_eq!(session.journey_press_on(3), Some(1));
    assert_eq!(session.screen, Screen::Playing);
}

#[test]
fn relic_pick_collects_it_and_banks_nothing() {
    let mut session = GameSession::new(&config(), Some("muddy_road"));
    session.start_journey(2);
    session.resolve_journey_leg(true, "Leg".to_owned(), choices());
    assert!(session.journey_choose_reward(0));
    let journey = session.journey.as_ref().unwrap();
    assert_eq!(journey.relics, vec!["lucky_charm".to_owned()]);
    assert_eq!(journey.banked_gold, 0);
    assert_eq!(journey.last_reward, 0);
}

#[test]
fn bank_and_return_pays_out_everything_banked() {
    let mut session = GameSession::new(&config(), Some("muddy_road"));
    let start_gold = session.campaign.gold;
    session.start_journey(3);
    session.resolve_journey_leg(true, "Leg".to_owned(), choices());
    session.journey_choose_reward(1);
    let banked = session.journey.as_ref().unwrap().banked_gold;
    assert!(banked > 0);

    session.journey_bank_and_return();
    assert!(session.journey.is_none());
    assert_eq!(session.campaign.gold, start_gold + banked);
    assert_eq!(session.screen, Screen::MissionMap);
}

#[test]
fn lost_leg_pays_half_and_ends_the_run() {
    let mut session = GameSession::new(&config(), Some("muddy_road"));
    let start_gold = session.campaign.gold;
    session.start_journey(3);
    session.resolve_journey_leg(true, "Leg one".to_owned(), choices());
    session.journey_choose_reward(1);
    let banked = session.journey.as_ref().unwrap().banked_gold;

    session.resolve_journey_leg(false, "Leg two".to_owned(), choices());
    let journey = session.journey.as_ref().unwrap();
    assert!(!journey.alive);
    assert_eq!(journey.payout, banked / 2);
    assert_eq!(journey.payout, 26);
    assert_eq!(session.campaign.gold, start_gold + banked / 2);
    assert_eq!(session.journey_press_on(3), None);

    // Leaving the summary adds nothing further.
    session.journey_bank_and_return();
    assert_eq!(session.campaign.gold, start_gold + banked / 2);
}

#[test]
fn journey_actions_without_a_run_change_nothing() {
    let mut session = GameSession::new(&config(), Some("muddy_road"));
    assert_eq!(session.journey_mission(4), None);
    assert!(!session.journey_choose_reward(0));
    assert_eq!(session.journey_press_on(4), None);
    session.resolve_journey_leg(false, "Leg".to_owned(), choices());
    assert_eq!(session.campaign.gold, 120);
    assert_eq!(session.screen, Screen::Title);
    assert_eq!(session.start_journey(0), None);
    assert_eq!(session.screen, Screen::Title);
}

#[test]
fn relic_offers_rotate_through_the_uncollected_ones() {
    let offer = vec!["a".to_owned(), "b".to_owned(), "c".to_owned()];
    let mut journey = Journey::new();
    journey.relics = vec!["b".to_owned()];
    assert_eq!(journey.next_relic_offer(&offer), Some("a".to_owned()));
    journey.leg = 2;
    assert_eq!(journey.next_relic_offer(&offer), Some("c".to_owned()));
    journey.leg = 3;
    assert_eq!(journey.next_relic_offer(&offer), Some("a".to_owned()));
    journey.relics = offer.clone();
    assert_eq!(journey.next_relic_offer(&offer), None);
}

#[test]
fn reward_titles_and_details_read_as_offered() {
    let [relic, provisions, repair] = choices();
    assert_eq!(relic.title(Some("Lucky Charm")), "Relic \u{2014} Lucky Charm");
    assert_eq!(relic.title(None), "Relic");
    assert_eq!(relic.detail(None), "A mysterious boon.");
    assert_eq!(relic.detail(Some("Doubles luck.")), "Doubles luck.");
    assert_eq!(provisions.title(None), "War Provisions");
    assert_eq!(provisions.detail(None), "+52 gold, +25% carriage health");
    assert_eq!(repair.title(None), "Field Repairs");
    assert_eq!(repair.detail(None), "Full repair, +17 gold");
    assert_eq!(LegReward::Bounty(78).title(None), "Bounty Purse");
    assert_eq!(LegReward::Bounty(78).detail(None), "+78 gold banked");
    assert_eq!(LegReward::Bounty(-5).detail(None), "+-5 gold banked");
    assert_eq!(LegReward::Bounty(i64::MIN).detail(None), "+-9223372036854775808 gold banked");
}

#[test]
fn leg_options_name_their_modifier() {
    let option = LegOption { mission_id: "muddy_road".to_owned(), modifier_id: "ambush".to_owned() };
    assert_eq!(option.title(Some("Raider Ambush")), "Raider Ambush");
    assert_eq!(option.title(None), "Onward");
}
