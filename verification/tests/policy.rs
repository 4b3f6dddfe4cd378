use gitgate::clock::Timestamp;
use gitgate::github::{License, Owner, RepoMeta};
use gitgate::policy::{
    decide, default_audit_path, default_min_age, default_no_license_action, evaluate, evaluate_at,
    Action, Config, Decision, FoldedNames, NoLicenseAction,
};

const DAY: i64 = 86_400;
/// 2024-01-01T00:00:00Z
const CREATED: i64 = 1_704_067_200;

fn list(names: &[&str]) -> Vec<String> {
    names.iter().map(|n| n.to_string()).collect()
}

fn repo(owner: &str, name: &str, license: Option<&str>, stars: u64) -> RepoMeta {
    RepoMeta {
        license: license.map(|id| License { spdx_id: Some(id.to_string()) }),
        created_at: "2024-01-01T00:00:00Z".to_string(),
        stargazers_count: stars,
        owner: Owner { login: owner.to_string() },
        full_name: format!("{}/{}", owner, name),
    }
}

/// The policy that the README shows.
fn readme_policy() -> Config {
    Config {
        license_allowlist: list(&["MIT", "Apache-2.0", "BSD-2-Clause", "BSD-3-Clause", "ISC"]),
        no_license_action: NoLicenseAction::Block,
        min_repo_age_days: 30,
        exceptions: list(&["my-org/approved-internal-tool"]),
        ..Config::default()
    }
}

fn on_day(config: &Config, meta: &RepoMeta, days: i64) -> Decision {
    evaluate_at(config, meta, Timestamp { secs: CREATED + days * DAY, nanos: 0 })
}

fn summary(d: &Decision) -> (Action, &str, Vec<&str>) {
    (d.action, d.reason.as_str(), d.reasons.iter().map(|r| r.as_str()).collect())
}

#[test]
fn defaults_of_an_empty_policy() {
    let config = Config::default();
    assert!(config.license_allowlist.is_empty());
    assert!(config.license_blocklist.is_empty());
    assert_eq!(config.no_license_action, NoLicenseAction::Block);
    assert_eq!(config.min_repo_age_days, 180);
    assert_eq!(config.min_star_count, 0);
    assert!(config.org_allowlist.is_empty());
    assert!(config.org_blocklist.is_empty());
    assert!(config.exceptions.is_empty());
    assert_eq!(config.audit_log_path, "audit.jsonl");
    assert_eq!(default_no_license_action(), NoLicenseAction::Block);
    assert_eq!(default_min_age(), 180);
    assert_eq!(default_audit_path(), "audit.jsonl");
}

#[test]
fn young_repository_is_blocked_with_its_age() {
    let d = on_day(&readme_policy(), &repo("sketchy", "brand-new-package", Some("MIT"), 5), 3);
    assert_eq!(
        summary(&d),
        (
            Action::Block,
            "repo_too_young (3 days old, minimum 30)",
            vec!["repo_too_young (3 days old, minimum 30)"]
        )
    );
}

#[test]
fn repository_without_license_is_blocked() {
    let d = on_day(&readme_policy(), &repo("sketchy", "new-package", None, 5), 400);
    assert_eq!(summary(&d), (Action::Block, "no_license", vec!["no_license"]));
}

#[test]
fn license_object_without_identifier_counts_as_none() {
    let mut meta = repo("sketchy", "new-package", None, 5);
    meta.license = Some(License { spdx_id: None });
    let d = on_day(&readme_policy(), &meta, 400);
    assert_eq!(d.reasons, list(&["no_license"]));
}

#[test]
fn allowed_repository_names_its_license() {
    let mut config = readme_policy();
    config.license_allowlist = Vec::new();
    let d = on_day(&config, &repo("torvalds", "linux", Some("GPL-2.0"), 200_000), 4000);
    assert_eq!(summary(&d), (Action::Allow, "license: GPL-2.0", vec!["allowed"]));
}

#[test]
fn missing_license_can_be_allowed() {
    let mut config = readme_policy();
    config.no_license_action = NoLicenseAction::Allow;
    let d = on_day(&config, &repo("a", "b", None, 0), 30);
    assert_eq!(summary(&d), (Action::Allow, "all checks passed", vec!["allowed"]));
}

#[test]
fn unrecognized_license_is_blocked_even_where_none_is_allowed() {
    let mut config = readme_policy();
    config.no_license_action = NoLicenseAction::Allow;
    for id in ["NOASSERTION", "NONE"] {
        let d = on_day(&config, &repo("a", "b", Some(id), 0), 31);
        assert_eq!(
            summary(&d),
            (Action::Block, "license_unrecognized", vec!["license_unrecognized"])
        );
    }
    // The marks are compared as they are written.
    config.license_allowlist = Vec::new();
    let d = on_day(&config, &repo("a", "b", Some("noassertion"), 0), 31);
    assert_eq!(d.action, Action::Allow);
}

#[test]
fn license_lists_ignore_case_and_the_blocklist_wins() {
    let mut config = readme_policy();
    config.license_blocklist = list(&["agpl-3.0", "mit"]);
    let d = on_day(&config, &repo("a", "b", Some("AGPL-3.0"), 0), 31);
    assert_eq!(d.reason, "license_blocklisted:AGPL-3.0");
    let d = on_day(&config, &repo("a", "b", Some("MIT"), 0), 31);
    assert_eq!(d.reason, "license_blocklisted:MIT");
    let d = on_day(&config, &repo("a", "b", Some("isc"), 0), 31);
    assert_eq!(summary(&d), (Action::Allow, "license: isc", vec!["allowed"]));
    let d = on_day(&config, &repo("a", "b", Some("GPL-2.0"), 0), 31);
    assert_eq!(d.reason, "license_not_allowed:GPL-2.0");
}

#[test]
fn all_findings_are_kept_in_order() {
    let mut config = readme_policy();
    config.min_star_count = 10;
    let d = on_day(&config, &repo("a", "b", Some("GPL-2.0"), 9), 29);
    assert_eq!(
        summary(&d),
        (
            Action::Block,
            "license_not_allowed:GPL-2.0",
            vec![
                "license_not_allowed:GPL-2.0",
                "repo_too_young (29 days old, minimum 30)",
                "stars_below_threshold:9"
            ]
        )
    );
}

#[test]
fn age_and_stars_at_their_thresholds() {
    let mut config = readme_policy();
    config.min_star_count = 10;
    assert_eq!(on_day(&config, &repo("a", "b", Some("MIT"), 10), 30).action, Action::Allow);
    assert_eq!(
        on_day(&config, &repo("a", "b", Some("MIT"), 9), 30).reasons,
        list(&["stars_below_threshold:9"])
    );
    let meta = repo("a", "b", Some("MIT"), 10);
    let just_before = Timestamp { secs: CREATED + 30 * DAY - 1, nanos: 999_999_999 };
    assert_eq!(
        evaluate_at(&config, &meta, just_before).reason,
        "repo_too_young (29 days old, minimum 30)"
    );
}

#[test]
fn negative_ages_and_limits_are_written_with_a_sign() {
    let mut config = readme_policy();
    config.min_repo_age_days = -1;
    let d = on_day(&config, &repo("a", "b", Some("MIT"), 0), -2);
    assert_eq!(d.reason, "repo_too_young (-2 days old, minimum -1)");
    let names = FoldedNames::new(&config, &repo("a", "b", Some("MIT"), 0));
    let d = decide(&config, &repo("a", "b", Some("MIT"), 0), &names, i64::MIN);
    assert_eq!(d.reason, "repo_too_young (-9223372036854775808 days old, minimum -1)");
}

#[test]
fn exceptions_come_before_everything() {
    let mut config = readme_policy();
    config.org_blocklist = list(&["my-org"]);
    let d = on_day(&config, &repo("My-Org", "Approved-Internal-Tool", None, 0), 0);
    assert_eq!(
        summary(&d),
        (
            Action::Allow,
            "'my-org/approved-internal-tool' is in the exception list",
            vec!["exception"]
        )
    );
}

#[test]
fn blocked_owners_come_before_allowed_owners() {
    let mut config = readme_policy();
    config.org_blocklist = list(&["EVIL"]);
    config.org_allowlist = list(&["evil", "Friend"]);
    let d = on_day(&config, &repo("Evil", "tool", Some("MIT"), 9), 4000);
    assert_eq!(summary(&d), (Action::Block, "org 'evil' is blocklisted", vec!["org_blocklisted"]));
    let d = on_day(&config, &repo("friend", "tool", None, 0), 0);
    assert_eq!(
        summary(&d),
        (Action::Allow, "org 'friend' is allowlisted", vec!["org_allowlisted"])
    );
}

#[test]
fn names_are_folded_to_one_case() {
    let mut config = readme_policy();
    config.org_blocklist = list(&["ÄPFEL"]);
    config.org_allowlist = list(&["Org"]);
    config.license_blocklist = list(&["gpl-2.0"]);
    let names = FoldedNames::new(&config, &repo("Äpfel", "Baum", Some("gpl-3.0"), 0));
    assert_eq!(names.repo, "äpfel/baum");
    assert_eq!(names.owner, "äpfel");
    assert_eq!(names.license, Some("GPL-3.0".to_string()));
    assert_eq!(names.exceptions, list(&["my-org/approved-internal-tool"]));
    assert_eq!(names.org_blocklist, list(&["äpfel"]));
    assert_eq!(names.org_allowlist, list(&["org"]));
    assert_eq!(names.license_blocklist, list(&["GPL-2.0"]));
    assert_eq!(
        names.license_allowlist,
        list(&["MIT", "APACHE-2.0", "BSD-2-CLAUSE", "BSD-3-CLAUSE", "ISC"])
    );
    let d = on_day(&config, &repo("Äpfel", "Baum", Some("MIT"), 0), 4000);
    assert_eq!(d.reason, "org 'äpfel' is blocklisted");
}

#[test]
fn age_stars_and_lower_demands_only_help() {
    let mut config = readme_policy();
    config.min_star_count = 10;
    let meta = repo("a", "b", Some("MIT"), 10);
    assert_eq!(on_day(&config, &meta, 30).action, Action::Allow);
    assert_eq!(on_day(&config, &repo("a", "b", Some("MIT"), 11), 31).action, Action::Allow);
    assert_eq!(on_day(&config, &meta, 29).action, Action::Block);

    let mut milder = readme_policy();
    milder.min_star_count = 9;
    milder.min_repo_age_days = 29;
    assert_eq!(on_day(&milder, &meta, 30).action, Action::Allow);
    assert_eq!(on_day(&milder, &meta, 29).action, Action::Allow);
    assert_eq!(on_day(&milder, &repo("a", "b", Some("MIT"), 8), 29).action, Action::Block);
}

#[test]
fn ascii_case_does_not_matter_beside_other_letters() {
    for (listed, owner) in [
        ("École", "éCOLE"),
        ("AΣ", "aΣ"),
        ("ΣA", "Σa"),
        ("aΣB", "AΣb"),
        ("xİY", "XİY"),
        ("STRAßE", "straße"),
    ] {
        let mut config = readme_policy();
        config.org_blocklist = list(&[listed]);
        let d = on_day(&config, &repo(owner, "x", Some("MIT"), 0), 31);
        assert_eq!(d.action, Action::Block, "{} {}", listed, owner);
    }
    for (listed, license) in [("École-1", "école-1"), ("straße", "STRAßE"), ("aΣ", "Aς")] {
        let mut config = readme_policy();
        config.license_allowlist = list(&[listed]);
        let d = on_day(&config, &repo("a", "x", Some(license), 0), 31);
        assert_eq!(d.action, Action::Allow, "{} {}", listed, license);
    }
}

#[test]
fn case_of_other_letters_is_folded() {
    let mut config = readme_policy();
    config.org_blocklist = list(&["ÉCOLE"]);
    assert_eq!(on_day(&config, &repo("école", "x", Some("MIT"), 0), 31).action, Action::Block);
}

#[test]
fn ascii_case_does_not_matter() {
    let mut config = readme_policy();
    config.license_blocklist = list(&["GPL-2.0"]);
    config.org_blocklist = list(&["evil"]);
    let mut other = readme_policy();
    other.license_allowlist = list(&["mit", "APACHE-2.0", "bsd-2-Clause", "BSD-3-CLAUSE", "isc"]);
    other.license_blocklist = list(&["gpl-2.0"]);
    other.org_blocklist = list(&["EVIL"]);
    other.exceptions = list(&["MY-ORG/approved-INTERNAL-tool"]);
    for (a, b, license) in [
        (("my-org", "approved-internal-tool"), ("My-Org", "Approved-Internal-Tool"), None),
        (("evil", "x"), ("eVIL", "X"), Some("MIT")),
        (("a", "b"), ("A", "B"), Some("Apache-2.0")),
        (("a", "b"), ("A", "B"), Some("GPL-2.0")),
        (("a", "b"), ("A", "B"), Some("EUPL-1.2")),
    ] {
        let first = on_day(&config, &repo(a.0, a.1, license, 0), 31);
        let second = on_day(&other, &repo(b.0, b.1, license, 0), 31);
        assert_eq!(summary(&first), summary(&second));
    }
}

#[test]
fn system_clock_decides() {
    let mut meta = repo("a", "b", Some("MIT"), 0);
    meta.created_at = "2011-01-26T19:01:12Z".to_string();
    assert_eq!(evaluate(&readme_policy(), &meta).action, Action::Allow);
    meta.created_at = "9999-01-01T00:00:00Z".to_string();
    assert_eq!(evaluate(&readme_policy(), &meta).action, Action::Block);
}

#[test]
fn action_labels() {
    assert_eq!(Action::Allow.label(), "ALLOW");
    assert_eq!(Action::Block.label(), "BLOCK");
}
