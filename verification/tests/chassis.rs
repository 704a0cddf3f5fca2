use carriage_run::campaign::GameConfig;
use carriage_run::chassis::{chassis_for_level, default_chassis_id, find_chassis, ChassisDef};
use carriage_run::session::GameSession;

fn config() -> GameConfig {
    GameConfig {
        game_name: "carriage_run".to_owned(),
        display_name: "Carriage Run".to_owned(),
        save_slot: "campaign".to_owned(),
        version: "0.1.0".to_owned(),
        starting_gold: 120,
    }
}

fn chassis(id: &str, order: u32, slots: usize, cost: i64) -> ChassisDef {
    ChassisDef {
        id: id.to_owned(),
        name: id.to_owned(),
        description: String::new(),
        order,
        slots,
        cost,
    }
}

fn catalogue() -> Vec<ChassisDef> {
    vec![
        chassis("heavy_wagon", 2, 4, 600),
        chassis("scout_cart", 0, 2, 0),
        chassis("war_wagon", 1, 3, 250),
    ]
}

fn synced_session(defs: &[ChassisDef]) -> GameSession {
    let mut session = GameSession::new(&config(), Some("muddy_road"));
    session.sync_chassis(defs);
    session
}

#[test]
fn starter_chassis_is_lowest_order_whatever_the_list_order() {
    assert_eq!(default_chassis_id(&catalogue()), "scout_cart");
    assert_eq!(default_chassis_id(&[]), "scout_cart");
    let tied = vec![chassis("b", 1, 2, 0), chassis("a", 1, 3, 0), chassis("c", 5, 4, 0)];
    assert_eq!(default_chassis_id(&tied), "b");
}

#[test]
fn legacy_levels_map_to_matching_slot_counts() {
    let defs = catalogue();
    assert_eq!(chassis_for_level(&defs, 0), "scout_cart");
    assert_eq!(chassis_for_level(&defs, 1), "scout_cart");
    assert_eq!(chassis_for_level(&defs, 2), "war_wagon");
    assert_eq!(chassis_for_level(&defs, 3), "war_wagon");
    assert_eq!(chassis_for_level(&defs, 4), "heavy_wagon");
    // No chassis big enough: the last in order.
    let small = vec![chassis("cart", 0, 2, 0), chassis("buggy", 1, 2, 0)];
    assert_eq!(chassis_for_level(&small, 4), "buggy");
    // No chassis at all: the starter name.
    assert_eq!(chassis_for_level(&[], 4), "scout_cart");
}

#[test]
fn find_chassis_returns_the_named_entry() {
    let defs = catalogue();
    assert_eq!(find_chassis(&defs, "war_wagon").map(|c| c.cost), Some(250));
    assert!(find_chassis(&defs, "ghost_cart").is_none());
}

#[test]
fn new_campaign_syncs_onto_the_starter_chassis() {
    let defs = catalogue();
    let session = synced_session(&defs);
    assert_eq!(session.campaign.chassis_id, "scout_cart");
    assert_eq!(session.campaign.owned_chassis_ids, vec!["scout_cart".to_owned()]);
    assert_eq!(session.campaign.chassis_slots, 2);
    assert_eq!(session.campaign.guard_slot_count(), 2);
    assert_eq!(session.campaign.selected_equipment_ids, vec!["carriage_armor".to_owned()]);
}

#[test]
fn buying_a_chassis_spends_gold_owns_it_and_makes_it_active() {
    let defs = catalogue();
    let mut session = synced_session(&defs);
    session.campaign.gold = 1000;

    assert!(session.buy_chassis(&defs, "heavy_wagon"));
    assert_eq!(session.campaign.gold, 400);
    assert!(session.campaign.is_chassis_owned("heavy_wagon"));
    assert_eq!(session.campaign.chassis_id, "heavy_wagon");
    assert_eq!(session.campaign.guard_slot_count(), 4);

    // Owned already: a second purchase is refused and costs nothing.
    assert!(!session.buy_chassis(&defs, "heavy_wagon"));
    assert_eq!(session.campaign.gold, 400);

    // Switching back to the owned starter is free and restores its slots.
    assert!(session.select_chassis(&defs, "scout_cart"));
    assert_eq!(session.campaign.guard_slot_count(), 2);
    assert_eq!(session.campaign.gold, 400);
}

#[test]
fn chassis_purchase_is_refused_when_poor_or_unknown() {
    let defs = catalogue();
    let mut session = synced_session(&defs);
    session.campaign.gold = 10;

    assert!(!session.buy_chassis(&defs, "heavy_wagon"));
    assert!(!session.campaign.is_chassis_owned("heavy_wagon"));
    assert_eq!(session.campaign.gold, 10);
    assert!(!session.buy_chassis(&defs, "ghost_cart"));
    assert!(!session.select_chassis(&defs, "war_wagon"));
    assert_eq!(session.campaign.chassis_id, "scout_cart");
}

#[test]
fn legacy_save_without_chassis_keeps_its_slot_count() {
    let defs = catalogue();
    let mut session = GameSession::new(&config(), Some("muddy_road"));
    session.campaign.carriage_level = 4;
    session.sync_chassis(&defs);

    assert_eq!(session.campaign.chassis_id, "heavy_wagon");
    assert_eq!(
        session.campaign.owned_chassis_ids,
        vec!["scout_cart".to_owned(), "heavy_wagon".to_owned()]
    );
    assert_eq!(session.campaign.guard_slot_count(), 4);
}

#[test]
fn sync_drops_unknown_chassis_and_falls_back_to_an_owned_one() {
    let defs = catalogue();
    let mut session = GameSession::new(&config(), Some("muddy_road"));
    session.campaign.owned_chassis_ids = vec!["ghost_cart".to_owned(), "war_wagon".to_owned()];
    session.campaign.chassis_id = "ghost_cart".to_owned();
    session.sync_chassis(&defs);

    assert_eq!(
        session.campaign.owned_chassis_ids,
        vec!["scout_cart".to_owned(), "war_wagon".to_owned()]
    );
    assert_eq!(session.campaign.chassis_id, "scout_cart");
    assert_eq!(session.campaign.chassis_slots, 2);
}

#[test]
fn sync_without_content_keeps_the_legacy_slot_formula() {
    let mut session = GameSession::new(&config(), Some("muddy_road"));
    session.campaign.carriage_level = 2;
    session.sync_chassis(&[]);

    assert!(session.campaign.owned_chassis_ids.is_empty());
    assert_eq!(session.campaign.chassis_id, "scout_cart");
    assert_eq!(session.campaign.chassis_slots, 0);
    assert_eq!(session.campaign.chassis_slot_count(), 3);
}
