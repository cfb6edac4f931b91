use covid_stats_bot::command::extract_token;
use covid_stats_bot::countries::{country_code, render_reply, resolve_country, Country};
use covid_stats_bot::dates::{
    date_from_ymd, days_in_month, is_leap_year, prev_day, today_utc, SimpleDate,
};
use covid_stats_bot::numfmt::{i64_to_dec, u64_to_dec, u64_to_pad2, u64_to_pad4};
use covid_stats_bot::pipeline::{on_message, on_stats_response, Action};
use covid_stats_bot::stats::{parse_stats_body, stats_url, StatsError};

fn date(year: u16, month: u8, day: u8) -> SimpleDate {
    SimpleDate { year, month, day }
}

#[test]
fn decimal_rendering() {
    assert_eq!(u64_to_dec(0), "0");
    assert_eq!(u64_to_dec(7), "7");
    assert_eq!(u64_to_dec(12345), "12345");
    assert_eq!(u64_to_dec(u64::MAX), "18446744073709551615");
    assert_eq!(i64_to_dec(0), "0");
    assert_eq!(i64_to_dec(-5), "-5");
    assert_eq!(i64_to_dec(i64::MIN), "-9223372036854775808");
    assert_eq!(u64_to_pad2(7), "07");
    assert_eq!(u64_to_pad2(42), "42");
    assert_eq!(u64_to_pad4(7), "0007");
    assert_eq!(u64_to_pad4(982), "0982");
    assert_eq!(u64_to_pad4(2020), "2020");
}

#[test]
fn leap_years() {
    assert!(is_leap_year(2020));
    assert!(!is_leap_year(2021));
    assert!(!is_leap_year(2100));
    assert!(is_leap_year(2000));
    assert_eq!(days_in_month(2020, 2), 29);
    assert_eq!(days_in_month(2021, 2), 28);
    assert_eq!(days_in_month(2021, 4), 30);
    assert_eq!(days_in_month(2021, 12), 31);
}

#[test]
fn previous_day() {
    assert_eq!(prev_day(date(2020, 5, 2)), date(2020, 5, 1));
    assert_eq!(prev_day(date(2020, 3, 1)), date(2020, 2, 29));
    assert_eq!(prev_day(date(2021, 3, 1)), date(2021, 2, 28));
    assert_eq!(prev_day(date(2100, 3, 1)), date(2100, 2, 28));
    assert_eq!(prev_day(date(2020, 1, 1)), date(2019, 12, 31));
}

#[test]
fn date_construction() {
    assert_eq!(date_from_ymd(2020, 5, 2), Some(date(2020, 5, 2)));
    assert_eq!(date_from_ymd(2020, 2, 29), Some(date(2020, 2, 29)));
    assert_eq!(date_from_ymd(2021, 2, 29), None);
    assert_eq!(date_from_ymd(2021, 4, 31), None);
    assert_eq!(date_from_ymd(2021, 0, 1), None);
    assert_eq!(date_from_ymd(2021, 13, 1), None);
    assert_eq!(date_from_ymd(2021, 1, 0), None);
    assert_eq!(date_from_ymd(0, 1, 1), None);
    assert_eq!(date_from_ymd(10000, 1, 1), None);
    assert_eq!(date_from_ymd(9999, 12, 31), Some(date(9999, 12, 31)));
}

#[test]
fn current_date_is_plausible() {
    let today = today_utc().expect("the clock is within the formatter's range");
    assert!(today.year >= 2020);
    assert!((1..=12).contains(&today.month));
    assert!((1..=31).contains(&today.day));
}

#[test]
fn token_extraction() {
    assert_eq!(extract_token("/шо_там_у_хохлов").as_deref(), Some("хохлов"));
    assert_eq!(extract_token("/шо_там_у_москалів").as_deref(), Some("москалів"));
    assert_eq!(extract_token("/шо_там_у_").as_deref(), Some(""));
    assert_eq!(extract_token("привет"), None);
    assert_eq!(extract_token(""), None);
    assert_eq!(extract_token("/шо_там_в_хохлов"), None);
    assert_eq!(extract_token("шо_там_у_хохлов"), None);
}

#[test]
fn country_table() {
    assert_eq!(resolve_country("хохлов"), Some(Country::Ukraine));
    assert_eq!(resolve_country("москалів"), Some(Country::Russia));
    assert_eq!(resolve_country("хохлів"), None);
    assert_eq!(resolve_country(""), None);
    assert_eq!(country_code(Country::Ukraine), "ukraine");
    assert_eq!(country_code(Country::Russia), "russia");
}

#[test]
fn rendered_reply_matches_template() {
    assert_eq!(
        render_reply(Country::Ukraine, 12345),
        "У хохлов, по последним данным всего заразилось 12345"
    );
    assert_eq!(
        render_reply(Country::Russia, 982),
        "У москалів, за останніми даними заразилося всього 982"
    );
}

#[test]
fn stats_url_for_a_day() {
    assert_eq!(
        stats_url("ukraine", date(2020, 5, 1)),
        "https://api.covid19api.com/country/ukraine/status/confirmed/live?from=2020-05-01T00:00:00Z&to=2020-05-01T23:59:59Z"
    );
}

#[test]
fn body_with_cases_parses() {
    assert_eq!(parse_stats_body("[{\"Cases\": 42}]"), Ok(42));
    assert_eq!(parse_stats_body("[{\"cases\": 7}]"), Ok(7));
    assert_eq!(
        parse_stats_body("[{\"Country\":\"Ukraine\",\"Cases\":12345,\"Status\":\"confirmed\"}]"),
        Ok(12345)
    );
    assert_eq!(parse_stats_body("[{\"Cases\": 12345}, {\"Cases\": 99}]"), Ok(12345));
    assert_eq!(parse_stats_body("[{\"Cases\": -3}]"), Ok(-3));
}

#[test]
fn bad_bodies_give_errors() {
    assert_eq!(parse_stats_body("not json"), Err(StatsError::BadBody));
    assert_eq!(parse_stats_body(""), Err(StatsError::BadBody));
    assert_eq!(parse_stats_body("[]"), Err(StatsError::NoData));
    assert_eq!(parse_stats_body("[{}]"), Err(StatsError::NoData));
    assert_eq!(parse_stats_body("{\"Cases\": 42}"), Err(StatsError::NoData));
    assert_eq!(parse_stats_body("[{\"Cases\": \"many\"}]"), Err(StatsError::NoData));
}

#[test]
fn non_command_is_ignored() {
    let today = date(2020, 5, 2);
    assert!(matches!(on_message("привет", today), Action::Ignore));
    assert!(matches!(on_message("", today), Action::Ignore));
    assert!(matches!(on_message("шо там у хохлов", today), Action::Ignore));
}

#[test]
fn unknown_token_is_ignored() {
    let today = date(2020, 5, 2);
    assert!(matches!(on_message("/шо_там_у_марсиан", today), Action::Ignore));
    assert!(matches!(on_message("/шо_там_у_", today), Action::Ignore));
}

#[test]
fn valid_command_fetches_yesterday() {
    let today = date(2020, 5, 2);
    match on_message("/шо_там_у_хохлов", today) {
        Action::Fetch { country, url } => {
            assert_eq!(country, Country::Ukraine);
            assert_eq!(
                url,
                "https://api.covid19api.com/country/ukraine/status/confirmed/live?from=2020-05-01T00:00:00Z&to=2020-05-01T23:59:59Z"
            );
        }
        Action::Ignore => panic!("a recognised command must fetch"),
    }
}

#[test]
fn end_to_end_reply() {
    let today = date(2020, 5, 2);
    let action = on_message("/шо_там_у_хохлов", today);
    let country = match action {
        Action::Fetch { country, .. } => country,
        Action::Ignore => panic!("a recognised command must fetch"),
    };
    let body = "[{\"Country\":\"Ukraine\",\"Cases\":12345,\"Status\":\"confirmed\"}]";
    let reply = on_stats_response(country, 200, body).expect("a well-formed 2xx response replies");
    assert_eq!(reply.country, Country::Ukraine);
    assert_eq!(reply.cases, 12345);
    assert_eq!(reply.text, "У хохлов, по последним данным всего заразилось 12345");
    assert!(reply.text.contains("12345"));
}

#[test]
fn failed_fetch_gives_no_reply() {
    let body = "[{\"Cases\": 42}]";
    assert!(matches!(
        on_stats_response(Country::Ukraine, 500, body),
        Err(StatsError::BadStatus)
    ));
    assert!(matches!(
        on_stats_response(Country::Ukraine, 404, body),
        Err(StatsError::BadStatus)
    ));
    assert!(matches!(
        on_stats_response(Country::Ukraine, 200, "<html>oops</html>"),
        Err(StatsError::BadBody)
    ));
    assert!(matches!(
        on_stats_response(Country::Ukraine, 200, "[]"),
        Err(StatsError::NoData)
    ));
}
