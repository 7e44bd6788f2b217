use librustymastodon::activity::Week;
use librustymastodon::errors::RustyMastodonError;
use librustymastodon::json_read::decode_activity;
use librustymastodon::json_write::{dec_u64, milli_string};
use librustymastodon::response::{
    build_error_response, build_response, FishLegend, InputData, Legend,
};
use librustymastodon::school::{build_school, FishData};

#[test]
fn decimals_render_exactly() {
    assert_eq!(dec_u64(0), "0");
    assert_eq!(dec_u64(60), "60");
    assert_eq!(dec_u64(1234567890), "1234567890");
}

#[test]
fn thousandths_render_with_at_least_one_fractional_digit() {
    assert_eq!(milli_string(1000), "1.0");
    assert_eq!(milli_string(0), "0.0");
    assert_eq!(milli_string(200), "0.2");
    assert_eq!(milli_string(460), "0.46");
    assert_eq!(milli_string(333), "0.333");
    assert_eq!(milli_string(1500), "1.5");
    assert_eq!(milli_string(-250), "-0.25");
    assert_eq!(milli_string(-1000), "-1.0");
}

#[test]
fn error_response_has_status_500_and_the_exact_body() {
    let r = build_error_response("Configuration error");
    assert_eq!(r.status, 500);
    assert_eq!(r.content_type, "application/json");
    assert!(r.cache_control.is_none());
    assert_eq!(r.body, "{\"message\":\"Configuration error\"}");
}

#[test]
fn error_response_escapes_the_message() {
    let r = build_error_response("a \"quote\", a \\ and a\nline");
    assert_eq!(r.body, "{\"message\":\"a \\\"quote\\\", a \\\\ and a\\nline\"}");
}

#[test]
fn success_response_carries_json_content_type_and_cache_control() {
    let payload = InputData { legend: None, school: Vec::new() };
    let r = build_response(&payload, &None);
    assert_eq!(r.status, 200);
    assert_eq!(r.content_type, "application/json");
    let cache = r.cache_control.unwrap();
    assert!(cache.contains("max-age="));
    assert_eq!(cache, "max-age=60, public");
    assert_eq!(r.body, "{\"school\":[]}");
}

#[test]
fn cache_seconds_come_from_the_configuration() {
    let payload = InputData { legend: None, school: Vec::new() };
    let r = build_response(&payload, &Some("120".to_string()));
    assert_eq!(r.cache_control.unwrap(), "max-age=120, public");
}

#[test]
fn unparsable_cache_seconds_fall_back_to_sixty() {
    let payload = InputData { legend: None, school: Vec::new() };
    let r = build_response(&payload, &Some("soon".to_string()));
    assert_eq!(r.cache_control.unwrap(), "max-age=60, public");
}

#[test]
fn school_records_serialize_in_order_with_fixed_fields() {
    let payload = InputData {
        legend: None,
        school: vec![
            FishData { fish: "clownfish".to_string(), size: 1000, speed: 200, bubbles: 460 },
            FishData { fish: "ferris".to_string(), size: 1000, speed: 1000, bubbles: 0 },
        ],
    };
    let r = build_response(&payload, &None);
    assert_eq!(
        r.body,
        "{\"school\":[{\"fish\":\"clownfish\",\"size\":1.0,\"speed\":0.2,\"bubbles\":0.46},\
         {\"fish\":\"ferris\",\"size\":1.0,\"speed\":1.0,\"bubbles\":0.0}]}"
    );
}

#[test]
fn decode_reads_a_plain_history() {
    let body = "[{\"week\":\"1\",\"statuses\":\"10\",\"logins\":\"20\",\"registrations\":\"30\"}]";
    let weeks = decode_activity(body).unwrap();
    assert_eq!(weeks.len(), 1);
    assert_eq!(weeks[0].week, "1");
    assert_eq!(weeks[0].statuses, "10");
    assert_eq!(weeks[0].logins, "20");
    assert_eq!(weeks[0].registrations, "30");
}

#[test]
fn decode_accepts_whitespace_and_any_field_order() {
    let body = " [ { \"registrations\" : \"3\" ,\n\t\"week\": \"w\", \"logins\": \"2\", \"statuses\": \"1\" } ] ";
    let weeks = decode_activity(body).unwrap();
    assert_eq!(weeks.len(), 1);
    assert_eq!(weeks[0].week, "w");
    assert_eq!(weeks[0].statuses, "1");
    assert_eq!(weeks[0].logins, "2");
    assert_eq!(weeks[0].registrations, "3");
}

#[test]
fn decode_keeps_the_order_of_weeks() {
    let body = "[{\"week\":\"a\",\"statuses\":\"1\",\"logins\":\"1\",\"registrations\":\"1\"},\
                {\"week\":\"b\",\"statuses\":\"2\",\"logins\":\"2\",\"registrations\":\"2\"}]";
    let weeks = decode_activity(body).unwrap();
    assert_eq!(weeks[0].week, "a");
    assert_eq!(weeks[1].week, "b");
}

#[test]
fn decode_accepts_an_empty_history() {
    let weeks = decode_activity("[]").unwrap();
    assert!(weeks.is_empty());
}

#[test]
fn decode_lets_a_repeated_field_win_last() {
    let body = "[{\"week\":\"x\",\"week\":\"y\",\"statuses\":\"1\",\"logins\":\"2\",\"registrations\":\"3\"}]";
    let weeks = decode_activity(body).unwrap();
    assert_eq!(weeks[0].week, "y");
}

#[test]
fn decode_resolves_escapes() {
    let body = "[{\"week\":\"a\\\"b\\\\c\\n\\u0041\",\"statuses\":\"1\",\"logins\":\"2\",\"registrations\":\"3\"}]";
    let weeks = decode_activity(body).unwrap();
    assert_eq!(weeks[0].week, "a\"b\\c\nA");
}

#[test]
fn decode_resolves_surrogate_pairs() {
    let body = "[{\"week\":\"\\uD83D\\uDE00\",\"statuses\":\"1\",\"logins\":\"2\",\"registrations\":\"3\"}]";
    let weeks = decode_activity(body).unwrap();
    assert_eq!(weeks[0].week, "\u{1F600}");
}

#[test]
fn decode_rejects_a_lone_surrogate() {
    let body = "[{\"week\":\"\\uD83D\",\"statuses\":\"1\",\"logins\":\"2\",\"registrations\":\"3\"}]";
    assert_eq!(decode_activity(body).unwrap_err(), RustyMastodonError::Parsing);
}

#[test]
fn decode_passes_over_unknown_fields() {
    let body = "[{\"week\":\"w\",\"extra\":123,\"statuses\":\"1\",\"deep\":{\"a\":[1,true,null,{\"b\":\"c\"}]},\"logins\":\"2\",\"flag\":false,\"registrations\":\"3\",\"rate\":-1.5e-3}]";
    let weeks = decode_activity(body).unwrap();
    assert_eq!(weeks[0].week, "w");
    assert_eq!(weeks[0].statuses, "1");
    assert_eq!(weeks[0].logins, "2");
    assert_eq!(weeks[0].registrations, "3");
}

#[test]
fn decode_rejects_a_broken_unknown_field() {
    let body = "[{\"week\":\"w\",\"extra\":tru,\"statuses\":\"1\",\"logins\":\"2\",\"registrations\":\"3\"}]";
    assert_eq!(decode_activity(body).unwrap_err(), RustyMastodonError::Parsing);
}

#[test]
fn decode_rejects_a_missing_field() {
    let body = "[{\"week\":\"w\",\"statuses\":\"1\",\"logins\":\"2\"}]";
    assert_eq!(decode_activity(body).unwrap_err(), RustyMastodonError::Parsing);
}

#[test]
fn decode_rejects_a_numeric_counter() {
    let body = "[{\"week\":\"w\",\"statuses\":100,\"logins\":\"2\",\"registrations\":\"3\"}]";
    assert_eq!(decode_activity(body).unwrap_err(), RustyMastodonError::Parsing);
}

#[test]
fn decode_rejects_malformed_bodies() {
    assert_eq!(decode_activity("").unwrap_err(), RustyMastodonError::Parsing);
    assert_eq!(decode_activity("not json").unwrap_err(), RustyMastodonError::Parsing);
    assert_eq!(decode_activity("{\"week\":\"w\"}").unwrap_err(), RustyMastodonError::Parsing);
    assert_eq!(decode_activity("[{]").unwrap_err(), RustyMastodonError::Parsing);
}

#[test]
fn decode_tolerates_a_trailing_comma_and_trailing_text() {
    let body = "[{\"week\":\"w\",\"statuses\":\"1\",\"logins\":\"2\",\"registrations\":\"3\",},] extra";
    let weeks = decode_activity(body).unwrap();
    assert_eq!(weeks.len(), 1);
}

#[test]
fn three_weeks_end_to_end() {
    let body = "[{\"week\":\"1\",\"statuses\":\"100000\",\"logins\":\"20000\",\"registrations\":\"15000\"},\
                {\"week\":\"2\",\"statuses\":\"0\",\"logins\":\"0\",\"registrations\":\"0\"},\
                {\"week\":\"3\",\"statuses\":\"50000\",\"logins\":\"10000\",\"registrations\":\"7500\"}]";
    let mut school = build_school(decode_activity(body).unwrap());
    school.push(FishData { fish: "ferris".to_string(), size: 1000, speed: 1000, bubbles: 0 });
    let legend = Legend {
        description: "d".to_string(),
        fish_legends: vec![FishLegend {
            fish: "clownfish".to_string(),
            description: "One week of activity".to_string(),
        }],
    };
    let payload = InputData { legend: Some(legend), school };
    let r = build_response(&payload, &None);
    assert_eq!(r.status, 200);
    assert_eq!(
        r.body,
        "{\"legend\":{\"description\":\"d\",\"fish_legends\":[{\"fish\":\"clownfish\",\"description\":\"One week of activity\"}]},\
         \"school\":[{\"fish\":\"clownfish\",\"size\":1.0,\"speed\":1.0,\"bubbles\":1.0},\
         {\"fish\":\"clownfish\",\"size\":0.2,\"speed\":0.2,\"bubbles\":0.2},\
         {\"fish\":\"clownfish\",\"size\":0.6,\"speed\":0.6,\"bubbles\":0.6},\
         {\"fish\":\"ferris\",\"size\":1.0,\"speed\":1.0,\"bubbles\":0.0}]}"
    );
}
