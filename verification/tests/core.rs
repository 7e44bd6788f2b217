use librustymastodon::activity::{parse_counter, parse_digits, Week};
use librustymastodon::errors::{classify_failure, FailureSource, RustyMastodonError};
use librustymastodon::fetch::prepare_fetch;
use librustymastodon::mapper::map_range;
use librustymastodon::school::{build_school, FishData};

fn week(week: &str, statuses: &str, logins: &str, registrations: &str) -> Week {
    Week {
        week: week.to_string(),
        statuses: statuses.to_string(),
        logins: logins.to_string(),
        registrations: registrations.to_string(),
    }
}

#[test]
fn map_range_hits_low_end() {
    assert_eq!(map_range((0, 15000), (200, 1000), 0), 200);
    assert_eq!(map_range((5, 25), (-100, 300), 5), -100);
}

#[test]
fn map_range_hits_high_end() {
    assert_eq!(map_range((0, 15000), (200, 1000), 15000), 1000);
    assert_eq!(map_range((5, 25), (-100, 300), 25), 300);
}

#[test]
fn map_range_is_affine_between_the_ends() {
    assert_eq!(map_range((0, 100), (0, 1000), 50), 500);
    assert_eq!(map_range((0, 10), (0, 100), 3), 30);
}

#[test]
fn map_range_handles_reversed_target() {
    assert_eq!(map_range((0, 10), (1000, 200), 10), 200);
    assert_eq!(map_range((0, 10), (1000, 200), 0), 1000);
}

#[test]
fn map_range_does_not_clamp() {
    assert_eq!(map_range((0, 10), (0, 100), 20), 200);
    assert_eq!(map_range((0, 10), (0, 100), -1), -10);
}

#[test]
fn map_range_truncates_toward_zero() {
    assert_eq!(map_range((0, 4), (0, 2), 1), 0);
    assert_eq!(map_range((0, 4), (0, -2), 1), 0);
}

#[test]
fn counters_parse_exactly() {
    assert_eq!(parse_counter("15000"), 15000);
    assert_eq!(parse_counter("007"), 7);
    assert_eq!(parse_counter("18446744073709551615"), u64::MAX);
}

#[test]
fn unparsable_counters_fall_back_to_zero() {
    assert_eq!(parse_counter(""), 0);
    assert_eq!(parse_counter("n/a"), 0);
    assert_eq!(parse_counter("1.5"), 0);
    assert_eq!(parse_counter("-3"), 0);
    assert_eq!(parse_counter("+3"), 0);
    assert_eq!(parse_counter(" 3"), 0);
    assert_eq!(parse_counter("18446744073709551616"), 0);
}

#[test]
fn parse_digits_tells_failure_from_zero() {
    assert_eq!(parse_digits("0"), Some(0));
    assert_eq!(parse_digits("120"), Some(120));
    assert_eq!(parse_digits("x"), None);
    assert_eq!(parse_digits(""), None);
}

#[test]
fn school_length_is_input_length_when_short() {
    let history = vec![
        week("2023-01-02", "1", "2", "3"),
        week("2023-01-09", "4", "5", "6"),
        week("2023-01-16", "7", "8", "9"),
    ];
    let school = build_school(history);
    assert_eq!(school.len(), 3);
}

#[test]
fn school_is_truncated_to_one_hundred() {
    let mut history = Vec::new();
    for i in 0..250 {
        history.push(week(&format!("w{}", i), "0", "0", "0"));
    }
    let school = build_school(history);
    assert_eq!(school.len(), 100);
}

#[test]
fn school_preserves_order() {
    let history = vec![
        week("a", "0", "0", "0"),
        week("b", "0", "0", "7500"),
        week("c", "0", "0", "15000"),
    ];
    let school = build_school(history);
    assert_eq!(school[0].size, 200);
    assert_eq!(school[1].size, 600);
    assert_eq!(school[2].size, 1000);
}

#[test]
fn calibration_ceiling_maps_to_the_top() {
    let school = build_school(vec![week("w", "100000", "20000", "15000")]);
    assert_eq!(school[0].fish, "clownfish");
    assert_eq!(school[0].size, 1000);
    assert_eq!(school[0].speed, 1000);
    assert_eq!(school[0].bubbles, 1000);
}

#[test]
fn zero_counters_map_to_the_bottom() {
    let school = build_school(vec![week("w", "0", "0", "0")]);
    assert_eq!(school[0].size, 200);
    assert_eq!(school[0].speed, 200);
    assert_eq!(school[0].bubbles, 200);
}

#[test]
fn unparsable_counter_maps_like_zero() {
    let with_junk = build_school(vec![week("w", "10", "20", "n/a")]);
    let with_zero = build_school(vec![week("w", "10", "20", "0")]);
    assert_eq!(with_junk[0].size, with_zero[0].size);
    assert_eq!(with_junk[0].speed, with_zero[0].speed);
    assert_eq!(with_junk[0].bubbles, with_zero[0].bubbles);
}

#[test]
fn counters_above_the_ceiling_map_past_the_top() {
    let school = build_school(vec![week("w", "0", "0", "30000")]);
    assert_eq!(school[0].size, 1800);
}

#[test]
fn default_fish_is_the_primary_variant_at_full_size() {
    let fish = FishData::default();
    assert_eq!(fish.fish, "clownfish");
    assert_eq!(fish.size, 1000);
    assert_eq!(fish.speed, 1000);
    assert_eq!(fish.bubbles, 1000);
}

#[test]
fn failure_sources_classify_into_the_three_kinds() {
    assert_eq!(
        classify_failure(FailureSource::MissingConfiguration),
        RustyMastodonError::Configuration
    );
    assert_eq!(
        classify_failure(FailureSource::RequestConstruction),
        RustyMastodonError::Configuration
    );
    assert_eq!(
        classify_failure(FailureSource::Transport),
        RustyMastodonError::ExternalRequest
    );
    assert_eq!(classify_failure(FailureSource::Decoding), RustyMastodonError::Parsing);
}

#[test]
fn error_messages_are_fixed_per_kind() {
    assert_eq!(
        RustyMastodonError::ExternalRequest.message(),
        "Failed reading data from external source"
    );
    assert_eq!(
        RustyMastodonError::Parsing.message(),
        "Failed parsing data from external source"
    );
    assert_eq!(RustyMastodonError::Configuration.message(), "Configuration error");
}

#[test]
fn missing_base_url_is_a_configuration_error() {
    let r = prepare_fetch(Some("agent".to_string()), None);
    assert_eq!(r.unwrap_err(), RustyMastodonError::Configuration);
}

#[test]
fn missing_user_agent_is_a_configuration_error() {
    let r = prepare_fetch(None, Some("https://example.test".to_string()));
    assert_eq!(r.unwrap_err(), RustyMastodonError::Configuration);
}

#[test]
fn full_configuration_prepares_the_activity_request() {
    let r = prepare_fetch(
        Some("aquarium/1.0".to_string()),
        Some("https://example.test".to_string()),
    )
    .unwrap();
    assert_eq!(r.url, "https://example.test/api/v1/instance/activity");
    assert_eq!(r.user_agent, "aquarium/1.0");
}
