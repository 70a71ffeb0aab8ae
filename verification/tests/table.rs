use undocked::table::{
    created_at, created_state, table_title, timezone_from_browser_or_mountain, CLOCK_PATTERN,
    MOUNTAIN,
};

#[test]
fn table_titles() {
    assert_eq!(table_title(0), "Table 0");
    assert_eq!(table_title(17), "Table 17");
    assert_eq!(table_title(255), "Table 255");
}

#[test]
fn known_zone_of_the_browser_is_kept() {
    assert_eq!(
        timezone_from_browser_or_mountain(Some("Europe/Paris".to_string())),
        "Europe/Paris"
    );
    assert_eq!(timezone_from_browser_or_mountain(Some("UTC".to_string())), "UTC");
}

#[test]
fn unknown_zone_falls_back_to_mountain() {
    assert_eq!(
        timezone_from_browser_or_mountain(Some("Mars/Olympus_Mons".to_string())),
        "US/Mountain"
    );
    assert_eq!(timezone_from_browser_or_mountain(Some("".to_string())), "US/Mountain");
    assert_eq!(timezone_from_browser_or_mountain(None), "US/Mountain");
    assert_eq!(MOUNTAIN, "US/Mountain");
}

#[test]
fn created_at_puts_the_time_behind_its_words() {
    assert_eq!(created_at("12:00:00.000 UTC"), "Created at 12:00:00.000 UTC");
    assert_eq!(created_at(""), "Created at ");
}

#[test]
fn created_state_in_a_known_zone() {
    assert_eq!(
        created_state(0, 0, Some("UTC".to_string())),
        Some("Created at 00:00:00.000 UTC".to_string())
    );
    assert_eq!(
        created_state(1431648000, 123_456_789, Some("UTC".to_string())),
        Some("Created at 00:00:00.123 UTC".to_string())
    );
    assert_eq!(
        created_state(3600 * 13 + 62, 5_000_000, Some("Europe/Berlin".to_string())),
        Some("Created at 14:01:02.005 CET".to_string())
    );
}

#[test]
fn created_state_in_mountain_time() {
    assert_eq!(
        created_state(0, 0, None),
        Some("Created at 17:00:00.000 MST".to_string())
    );
    assert_eq!(
        created_state(0, 0, Some("Nowhere".to_string())),
        Some("Created at 17:00:00.000 MST".to_string())
    );
    assert_eq!(
        created_state(1_720_000_000, 0, None),
        Some("Created at 03:46:40.000 MDT".to_string())
    );
}

#[test]
fn created_state_of_no_instant() {
    assert_eq!(created_state(0, 2_000_000_000, None), None);
    assert_eq!(created_state(i64::MAX, 0, Some("UTC".to_string())), None);
    assert_eq!(created_state(i64::MIN, 0, Some("UTC".to_string())), None);
}

#[test]
fn clock_pattern() {
    assert_eq!(CLOCK_PATTERN, "%H:%M:%S%.3f %Z");
}
