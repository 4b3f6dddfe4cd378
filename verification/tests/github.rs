use gitgate::clock::{Timestamp, MAX_SECS, MIN_SECS};
use gitgate::github::{
    days_of_age, is_success, refusal_message, refused, token_from, License, MetaRequest, Owner, RepoMeta, USER_AGENT,
};

fn repo(created_at: &str, license: Option<License>) -> RepoMeta {
    RepoMeta {
        license,
        created_at: created_at.to_string(),
        stargazers_count: 1,
        owner: Owner { login: "octocat".to_string() },
        full_name: "octocat/Hello-World".to_string(),
    }
}

fn at(secs: i64, nanos: u32) -> Timestamp {
    Timestamp { secs, nanos }
}

#[test]
fn license_identifier() {
    let named = License { spdx_id: Some("MIT".to_string()) };
    assert_eq!(repo("", Some(named)).license_id(), Some("MIT"));
    assert_eq!(repo("", Some(License { spdx_id: None })).license_id(), None);
    assert_eq!(repo("", None).license_id(), None);
}

#[test]
fn reads_rfc3339() {
    assert_eq!(Timestamp::parse("2011-01-26T19:01:12Z"), Some(at(1_296_068_472, 0)));
    assert_eq!(Timestamp::parse("1970-01-01T01:00:00.25+01:00"), Some(at(0, 250_000_000)));
    assert_eq!(Timestamp::parse("2016-12-31T23:59:60.5Z"), Some(at(1_483_228_799, 1_500_000_000)));
    assert_eq!(Timestamp::parse("yesterday"), None);
    assert_eq!(Timestamp::parse(""), None);
}

#[test]
fn writes_rfc3339() {
    assert_eq!(at(1_296_068_472, 0).to_text(), "2011-01-26T19:01:12+00:00");
    assert_eq!(Timestamp::epoch().to_text(), "1970-01-01T00:00:00+00:00");
    assert_eq!(at(0, 250_000_000).to_text(), "1970-01-01T00:00:00.250+00:00");
}

#[test]
fn whole_days_between_moments() {
    let day = 86_400;
    assert_eq!(at(day, 0).days_since(at(0, 0)), 1);
    assert_eq!(at(day, 0).days_since(at(0, 1)), 0);
    assert_eq!(at(0, 0).days_since(at(day - 1, 0)), 0);
    assert_eq!(at(0, 0).days_since(at(day, 0)), -1);
    assert_eq!(at(0, 0).days_since(at(2 * day, 1)), -2);
    assert_eq!(at(MAX_SECS, 999_999_999).days_since(at(MIN_SECS, 0)), 191_491_528);
}

#[test]
fn leap_seconds_are_counted() {
    // 2016-12-31T23:59:60.7Z is the start of the second day after
    // 2016-12-30T00:00:00.5Z.
    let leap = at(1_483_228_799, 1_700_000_000);
    assert_eq!(leap.days_since(at(1_483_056_000, 500_000_000)), 2);
    assert_eq!(at(1_483_228_800, 0).days_since(at(1_483_056_000, 500_000_000)), 1);
    // A repository created in a leap second of the minute before.
    assert_eq!(at(60 + 86_400, 0).days_since(at(59, 1_000_000_000)), 1);
    assert_eq!(at(59 + 86_400, 0).days_since(at(59, 1_000_000_000)), 0);
    // A moment in a leap second, at an earlier time of day.
    assert_eq!(at(59 + 86_400, 1_999_999_999).days_since(at(60, 0)), 0);
}

#[test]
fn age_of_a_repository() {
    let meta = repo("2024-01-01T00:00:00Z", None);
    assert_eq!(meta.age_days_at(at(1_704_067_200 + 3 * 86_400 + 5, 0)), 3);
    assert_eq!(meta.age_days_at(at(1_704_067_200 - 86_400, 0)), -1);
}

#[test]
fn unreadable_creation_date_counts_as_1970() {
    assert_eq!(repo("not a date", None).age_days_at(at(10 * 86_400, 0)), 10);
    assert_eq!(days_of_age(None, at(10 * 86_400, 0)), 10);
    assert_eq!(days_of_age(Some(at(86_400, 0)), at(10 * 86_400, 0)), 9);
}

#[test]
fn age_by_the_system_clock() {
    assert!(repo("2011-01-26T19:01:12Z", None).age_days() > 5000);
    assert!(repo("9999-01-01T00:00:00Z", None).age_days() < -1_000_000);
}

#[test]
fn metadata_request() {
    let request = MetaRequest::new("octocat", "Hello-World", Some("t0ken"));
    assert_eq!(request.url, "https://api.github.com/repos/octocat/Hello-World");
    assert_eq!(request.user_agent, "gitgate/0.1");
    assert_eq!(USER_AGENT, "gitgate/0.1");
    assert_eq!(request.bearer, Some("t0ken".to_string()));
    assert_eq!(MetaRequest::new("a", "b", None).bearer, None);
}

#[test]
fn statuses_and_refusals() {
    assert!(is_success(200) && is_success(299));
    assert!(!is_success(199) && !is_success(300) && !is_success(404));
    assert_eq!(
        refusal_message("404 Not Found", Some("{}".to_string())),
        "GitHub API returned 404 Not Found: {}"
    );
    assert_eq!(refusal_message("502 Bad Gateway", None), "GitHub API returned 502 Bad Gateway: ");
    assert_eq!(refused(200, "200 OK", Some("{}".to_string())), None);
    assert_eq!(refused(299, "299", None), None);
    assert_eq!(
        refused(300, "300 Multiple Choices", None),
        Some("GitHub API returned 300 Multiple Choices: ".to_string())
    );
    assert_eq!(
        refused(404, "404 Not Found", Some("gone".to_string())),
        Some("GitHub API returned 404 Not Found: gone".to_string())
    );
}

#[test]
fn empty_token_counts_as_none() {
    assert_eq!(token_from(None), None);
    assert_eq!(token_from(Some(String::new())), None);
    assert_eq!(token_from(Some("x".to_string())), Some("x".to_string()));
}
