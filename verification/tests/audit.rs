use gitgate::audit::{Entry, VERSION};
use gitgate::clock::Timestamp;
use gitgate::github::{License, Owner, RepoMeta};
use gitgate::policy::{Action, Decision};

fn meta() -> RepoMeta {
    RepoMeta {
        license: Some(License { spdx_id: Some("MIT".to_string()) }),
        created_at: "2011-01-26T19:01:12Z".to_string(),
        stargazers_count: 42,
        owner: Owner { login: "octocat".to_string() },
        full_name: "octocat/Hello-World".to_string(),
    }
}

fn blocked() -> Decision {
    Decision {
        action: Action::Block,
        reason: "first".to_string(),
        reasons: vec!["first".to_string(), "second".to_string()],
    }
}

#[test]
fn entry_of_a_decision() {
    let e = Entry::of("Octocat/hello-world", &meta(), &blocked(), "1234", "some time", 17);
    assert_eq!(e.id, "gg-1234");
    assert_eq!(e.timestamp, "some time");
    assert_eq!(e.action, Action::Block);
    assert_eq!(e.repo, "Octocat/hello-world");
    assert_eq!(e.license, Some("MIT".to_string()));
    assert_eq!(e.repo_age_days, 17);
    assert_eq!(e.stars, 42);
    assert_eq!(e.reasons, vec!["first".to_string(), "second".to_string()]);
    assert_eq!(e.gitgate_version, "0.1.0");
    assert_eq!(VERSION, "0.1.0");
}

#[test]
fn new_entries_have_their_own_identifier_and_the_current_time() {
    let a = Entry::new("o/r", &meta(), &blocked());
    let b = Entry::new("o/r", &meta(), &blocked());
    assert_ne!(a.id, b.id);
    for e in [&a, &b] {
        let id: Vec<char> = e.id.chars().collect();
        assert_eq!(id.len(), 39);
        assert!(e.id.starts_with("gg-"));
        for i in 0..36 {
            let c = id[i + 3];
            if i == 8 || i == 13 || i == 18 || i == 23 {
                assert_eq!(c, '-');
            } else {
                assert!(c.is_ascii_digit() || ('a' <= c && c <= 'f'));
            }
        }
        assert_eq!(id[3 + 14], '4');
        assert!(['8', '9', 'a', 'b'].contains(&id[3 + 19]));
        assert!(Timestamp::parse(&e.timestamp).unwrap().secs > 1_600_000_000);
        assert!(e.repo_age_days > 5000);
        assert_eq!(e.action, Action::Block);
        assert_eq!(e.reasons, blocked().reasons);
    }
}
