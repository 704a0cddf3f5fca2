use carriage_run::chassis::{default_chassis_id, ChassisDef};
use carriage_run::missions::{first_mission_id, MissionDef};
use carriage_run::order::{chassis_ordered, listing_order, missions_ordered};

fn chassis(id: &str, order: u32) -> ChassisDef {
    ChassisDef { id: id.to_owned(), name: id.to_owned(), description: String::new(), order, slots: 2, cost: 0 }
}

fn mission(id: &str, order: u32) -> MissionDef {
    MissionDef {
        id: id.to_owned(),
        name: id.to_owned(),
        order,
        mission_type: "cargo_transfer".to_owned(),
        route: String::new(),
        cargo: String::new(),
        objective: String::new(),
        bonus_objective: String::new(),
        intro_text: String::new(),
        outro_text: String::new(),
        unlock_level: 1,
        base_reward: 100,
        enemy_mix: Vec::new(),
        hazard_mix: Vec::new(),
        route_choices: Vec::new(),
        prerequisite_missions: Vec::new(),
        unlock_any_missions: Vec::new(),
    }
}

#[test]
fn listing_sorts_by_order_and_keeps_ties_in_place() {
    assert_eq!(listing_order(&vec![3, 1, 2, 1, 0]), vec![4, 1, 3, 2, 0]);
    assert_eq!(listing_order(&vec![]), Vec::<usize>::new());
    assert_eq!(listing_order(&vec![5, 5, 5]), vec![0, 1, 2]);
}

#[test]
fn missions_and_chassis_list_in_authored_order() {
    let missions = vec![mission("c", 3), mission("a", 1), mission("b", 1), mission("z", 0)];
    let ids: Vec<&str> = missions_ordered(&missions).iter().map(|m| m.id.as_str()).collect();
    assert_eq!(ids, vec!["z", "a", "b", "c"]);
    assert_eq!(first_mission_id(&missions), Some(ids[0]));

    let defs = vec![chassis("heavy_wagon", 2), chassis("scout_cart", 0), chassis("war_wagon", 1)];
    let ordered: Vec<&str> = chassis_ordered(&defs).iter().map(|c| c.id.as_str()).collect();
    assert_eq!(ordered, vec!["scout_cart", "war_wagon", "heavy_wagon"]);
    assert_eq!(default_chassis_id(&defs), ordered[0]);
}
