use carriage_run::missions::format_mission_id;
use carriage_run::save::{civil_from_days, timestamp_from_seconds, unknown_save_timestamp};
use carriage_run::text::{push_decimal, push_padded, push_str, str_eq};
use carriage_run::validation::join_strings;

#[test]
fn civil_dates_from_day_numbers() {
    assert_eq!(civil_from_days(0), (1970, 1, 1));
    assert_eq!(civil_from_days(-1), (1969, 12, 31));
    assert_eq!(civil_from_days(11016), (2000, 2, 29));
    assert_eq!(civil_from_days(19723), (2024, 1, 1));
    assert_eq!(civil_from_days(-719468), (0, 3, 1));
}

#[test]
fn timestamps_render_as_utc_iso_text() {
    assert_eq!(timestamp_from_seconds(0), "1970-01-01T00:00:00Z");
    assert_eq!(timestamp_from_seconds(1_704_067_199), "2023-12-31T23:59:59Z");
    assert_eq!(timestamp_from_seconds(951_782_400 + 3_661), "2000-02-29T01:01:01Z");
    assert_eq!(unknown_save_timestamp(), "1970-01-01T00:00:00Z");
    assert_eq!(unknown_save_timestamp(), timestamp_from_seconds(0));
}

#[test]
fn decimal_and_padded_output() {
    let mut s = String::from("n=");
    push_decimal(&mut s, 0);
    push_str(&mut s, ",");
    push_decimal(&mut s, 40_961);
    push_str(&mut s, ",");
    push_padded(&mut s, 7, 3);
    push_str(&mut s, ",");
    push_padded(&mut s, 12_345, 2);
    assert_eq!(s, "n=0,40961,007,12345");
}

#[test]
fn text_equality_compares_characters() {
    assert!(str_eq("muddy_road", "muddy_road"));
    assert!(!str_eq("muddy_road", "muddy_roads"));
    assert!(str_eq("", ""));
}

#[test]
fn mission_ids_read_as_titles() {
    assert_eq!(format_mission_id("muddy_road"), "Muddy Road");
    assert_eq!(format_mission_id("bandit_bend_2"), "Bandit Bend 2");
    assert_eq!(format_mission_id(""), "");
    assert_eq!(format_mission_id("a__b"), "A  B");
}

#[test]
fn strings_join_with_a_separator() {
    let parts = vec!["a".to_owned(), "bc".to_owned(), "d".to_owned()];
    assert_eq!(join_strings(&parts, "; "), "a; bc; d");
    assert_eq!(join_strings(&Vec::new(), ", "), "");
    assert_eq!(join_strings(&vec!["only".to_owned()], ", "), "only");
}
