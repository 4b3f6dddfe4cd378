use gitgate::github::{License, Owner, RepoMeta};
use gitgate::policy::{Action, Config, Decision};
use gitgate::proxy::{
    block, decision_notice, listen_address, listen_notice, metadata_unavailable, plain, repo_from_path,
    DecisionCache, Outcome, Reply, Step, CONTENT_TYPE, DEFAULT_PORT, USER_AGENT,
};

#[test]
fn parses_git_paths() {
    assert_eq!(repo_from_path("/octocat/Hello-World/info/refs"), Some(("octocat".into(), "Hello-World".into())));
    assert_eq!(repo_from_path("/octocat/Hello-World.git/info/refs"), Some(("octocat".into(), "Hello-World".into())));
    assert_eq!(repo_from_path("/octocat/Hello-World/git-upload-pack"), Some(("octocat".into(), "Hello-World".into())));
    assert_eq!(repo_from_path("/"), None);
    assert_eq!(repo_from_path("/onlyone"), None);
}

fn pair(owner: &str, repo: &str) -> Option<(String, String)> {
    Some((owner.to_string(), repo.to_string()))
}

#[test]
fn unusual_paths() {
    assert_eq!(repo_from_path("///a//b"), None);
    assert_eq!(repo_from_path("///a/b"), pair("a", "b"));
    assert_eq!(repo_from_path("a/b.git.git"), pair("a", "b"));
    assert_eq!(repo_from_path("/a/.git/info/refs"), None);
    assert_eq!(repo_from_path("/a/git"), pair("a", "git"));
    assert_eq!(repo_from_path("/a/b.github"), pair("a", "b.github"));
    assert_eq!(repo_from_path("/ä/ö.git/x"), pair("ä", "ö"));
    assert_eq!(repo_from_path(""), None);
    assert_eq!(repo_from_path("/a/"), None);
}

#[test]
fn replies() {
    assert_eq!(
        block("no_license"),
        Reply {
            status: 403,
            body: "GitGate: clone blocked\nReason: no_license\n\n\
                   Contact your security team to request an exception.\n"
                .to_string(),
        }
    );
    assert_eq!(
        metadata_unavailable("timeout"),
        Reply {
            status: 502,
            body: "GitGate: could not fetch repo metadata — timeout\n".to_string(),
        }
    );
    assert_eq!(plain(418, "tea"), Reply { status: 418, body: "tea".to_string() });
    assert_eq!(CONTENT_TYPE, "text/plain");
}

fn decision(action: Action) -> Decision {
    Decision { action, reason: "because".to_string(), reasons: vec!["because".to_string()] }
}

fn fetch(owner: &str, repo: &str) -> Step {
    Step::Fetch {
        owner: owner.to_string(),
        repo: repo.to_string(),
        key: format!("{}/{}", owner, repo),
    }
}

#[test]
fn a_request_is_decided_once() {
    let mut cache = DecisionCache::new();
    assert_eq!(cache.on_request("/o/r.git/info/refs"), fetch("o", "r"));
    assert_eq!(cache.on_decision("o/r", &decision(Action::Allow)), Outcome::Forward);
    assert_eq!(cache.on_request("/o/r/git-upload-pack"), Step::Done(Outcome::Forward));
    assert_eq!(cache.on_request("/o/other/info/refs"), fetch("o", "other"));
    assert_eq!(cache.on_request("/O/r/info/refs"), fetch("O", "r"));
}

#[test]
fn a_blocked_repository_stays_blocked() {
    let mut cache = DecisionCache::new();
    let refused = Outcome::Reply(block("because"));
    assert_eq!(cache.on_decision("o/r", &decision(Action::Block)), refused);
    assert_eq!(cache.on_request("/o/r/info/refs"), Step::Done(refused));
}

#[test]
fn decisions_are_logged() {
    let mut cache = DecisionCache::new();
    assert_eq!(cache.cached_notice("/o/r/info/refs"), None);
    assert_eq!(cache.cached_notice("/onlyone"), None);
    assert_eq!(decision_notice("o/r", &decision(Action::Block)), "BLOCK o/r — because");
    cache.on_decision("o/r", &decision(Action::Block));
    cache.on_decision("o/s", &decision(Action::Allow));
    assert_eq!(
        cache.cached_notice("/o/r.git/info/refs"),
        Some("BLOCK (cached) o/r — because".to_string())
    );
    assert_eq!(cache.cached_notice("/o/s/info/refs"), Some("ALLOW (cached) o/s".to_string()));
}

#[test]
fn answers_from_the_cache_follow_the_policy() {
    let config = Config { org_blocklist: vec!["bad".to_string()], ..Config::default() };
    let mut cache = DecisionCache::new();
    for owner in ["bad", "good"] {
        let key = format!("{}/r", owner);
        let meta = RepoMeta {
            license: Some(License { spdx_id: Some("MIT".to_string()) }),
            created_at: "2001-01-01T00:00:00Z".to_string(),
            stargazers_count: 0,
            owner: Owner { login: owner.to_string() },
            full_name: key.clone(),
        };
        let (judged, _) = DecisionCache::on_metadata(&key, &config, &meta);
        let outcome = cache.on_decision(&key, &judged);
        assert_eq!(cache.on_request(&format!("/{}/info/refs", key)), Step::Done(outcome));
        assert_eq!(judged.action == Action::Block, owner == "bad");
    }
}

#[test]
fn a_path_without_repository_is_refused() {
    let cache = DecisionCache::new();
    assert_eq!(
        cache.on_request("/onlyone"),
        Step::Done(Outcome::Reply(plain(400, "GitGate: cannot parse repo from path\n")))
    );
}

#[test]
fn metadata_leads_to_a_decision_and_an_entry() {
    let meta = RepoMeta {
        license: Some(License { spdx_id: Some("MIT".to_string()) }),
        created_at: "2011-01-26T19:01:12Z".to_string(),
        stargazers_count: 42,
        owner: Owner { login: "o".to_string() },
        full_name: "o/r".to_string(),
    };
    let (d, e) = DecisionCache::on_metadata("o/r", &Config::default(), &meta);
    assert_eq!(d.action, Action::Allow);
    assert_eq!(d.reason, "license: MIT");
    assert_eq!(e.repo, "o/r");
    assert_eq!(e.action, Action::Allow);
    assert_eq!(e.reasons, vec!["allowed".to_string()]);
}

#[test]
fn starting_up() {
    assert_eq!(DEFAULT_PORT, 7443);
    assert_eq!(USER_AGENT, "gitgate-proxy/0.1");
    assert_eq!(listen_address("0.0.0.0", 7443), "0.0.0.0:7443");
    assert_eq!(listen_address("::", 0), ":::0");
    assert_eq!(
        listen_notice(true, "h:1"),
        "[gitgate] proxy listening on https://h:1\n[gitgate] configure git:  \
         git config --global url.\"https://h:1/\".insteadOf \"https://github.com/\"\n"
    );
    assert_eq!(
        listen_notice(false, "h:1"),
        "[gitgate] proxy listening on http://h:1\n[gitgate] configure git:  \
         git config --global url.\"http://h:1/\".insteadOf \"https://github.com/\"\n"
    );
}
