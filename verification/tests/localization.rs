use carriage_run::localization::{Language, Localizer};

#[test]
fn missing_keys_fall_back_to_english_and_are_reported() {
    let mut localizer = Localizer::english();
    assert_eq!(localizer.text("menu.new_campaign"), "New Campaign");
    assert_eq!(localizer.text("missing.key"), "missing.key");
    assert!(localizer.missing_keys().iter().any(|key| key == "missing.key"));
}

#[test]
fn missing_keys_are_reported_once_in_first_asked_order() {
    let mut localizer = Localizer::english();
    assert_eq!(localizer.text("b.key"), "b.key");
    assert_eq!(localizer.text("a.key"), "a.key");
    assert_eq!(localizer.text("b.key"), "b.key");
    assert_eq!(localizer.text("menu.new_campaign"), "New Campaign");
    assert_eq!(localizer.missing_keys(), &vec!["b.key".to_owned(), "a.key".to_owned()]);
    assert_eq!(localizer.language(), Language::English);
}

#[test]
fn language_ids_round_trip() {
    for language in [Language::English, Language::German, Language::French] {
        assert_eq!(Language::from_id(language.id()), language);
    }
    assert_eq!(Language::from_id("xx"), Language::English);
    assert_eq!(Language::German.id(), "de");
}
