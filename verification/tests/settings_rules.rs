use carriage_run::settings::{
    next_fps_cap, next_language, next_resolution, parse_key, sanitize_fps_cap, sanitize_language,
    sanitize_resolution, setting_label, DragPreference, KeyBindings, KeyName,
};

#[test]
fn key_bindings_are_rebindable_without_key_literals_in_gameplay() {
    let mut bindings = KeyBindings::default();
    assert_eq!(bindings.key("boost"), KeyName::Space);
    assert!(bindings.set("boost", "Up"));
    assert_eq!(bindings.key("boost"), KeyName::Up);
}

#[test]
fn rebinding_one_action_leaves_the_others() {
    let mut bindings = KeyBindings::default();
    assert!(bindings.set("brake", "Down"));
    assert_eq!(bindings.key("brake"), KeyName::Down);
    assert_eq!(bindings.key("boost"), KeyName::Space);
    assert_eq!(bindings.key("steer_left"), KeyName::A);
    assert_eq!(bindings.key("load"), KeyName::L);
}

#[test]
fn default_bindings_and_unknown_actions() {
    let mut bindings = KeyBindings::default();
    assert_eq!(bindings.key("steer_left"), KeyName::A);
    assert_eq!(bindings.key("steer_right"), KeyName::D);
    assert_eq!(bindings.key("brake"), KeyName::LeftShift);
    assert_eq!(bindings.key("jump"), KeyName::Unknown);
    assert!(!bindings.set("jump", "Up"));
    assert_eq!(bindings.key("boost"), KeyName::Space);
    assert!(bindings.set("repair", "gibberish"));
    assert_eq!(bindings.key("repair"), KeyName::Unknown);
    assert_eq!(parse_key("Space"), KeyName::Space);
    assert_eq!(parse_key("space"), KeyName::Unknown);
}

#[test]
fn steering_and_recovery_keys_cycle_between_layouts() {
    let mut bindings = KeyBindings::default();
    bindings.cycle_steering();
    assert_eq!(bindings.key("steer_left"), KeyName::Left);
    assert_eq!(bindings.key("steer_right"), KeyName::Right);
    bindings.cycle_steering();
    assert_eq!(bindings.key("steer_left"), KeyName::A);
    assert_eq!(bindings.key("steer_right"), KeyName::D);

    bindings.cycle_recovery();
    assert_eq!(bindings.key("repair"), KeyName::F);
    assert_eq!(bindings.key("save"), KeyName::F5);
    assert_eq!(bindings.key("load"), KeyName::F9);
    bindings.cycle_recovery();
    assert_eq!(bindings.key("repair"), KeyName::R);
    assert_eq!(bindings.key("save"), KeyName::S);
    assert_eq!(bindings.key("load"), KeyName::L);
}

#[test]
fn display_preferences_are_sanitized() {
    assert_eq!(sanitize_resolution("giant"), "1280x720");
    assert_eq!(sanitize_resolution("1600x900"), "1600x900");
    assert_eq!(sanitize_fps_cap(2), 30);
    assert_eq!(sanitize_fps_cap(500), 240);
    assert_eq!(sanitize_fps_cap(144), 144);
    assert_eq!(sanitize_language("de"), "de");
    assert_eq!(sanitize_language("es"), "en");
}

#[test]
fn settings_cycles_wrap_around() {
    assert_eq!(next_resolution("960x540"), "1280x720");
    assert_eq!(next_resolution("1920x1080"), "960x540");
    assert_eq!(next_resolution("odd"), "960x540");
    assert_eq!(next_fps_cap(30), 60);
    assert_eq!(next_fps_cap(240), 30);
    assert_eq!(next_fps_cap(144), 30);
    assert_eq!(next_language("en"), "de");
    assert_eq!(next_language("de"), "fr");
    assert_eq!(next_language("fr"), "en");
}

#[test]
fn toggle_labels_and_drag_preference() {
    assert_eq!(setting_label("route_motion"), "Route motion");
    assert_eq!(setting_label("alerts"), "Route alerts");
    assert_eq!(setting_label("auto_save"), "Autosave");
    assert_eq!(DragPreference::Hold.toggled(), DragPreference::Toggle);
    assert_eq!(DragPreference::Toggle.toggled(), DragPreference::Hold);
    assert_eq!(DragPreference::default(), DragPreference::Hold);
}
