use gitgate::cli::{
    after_audit, check_command, check_report, clone_command, clone_step, exit_code, parse_repo,
    policy_show_command, CheckReport, CloneStep,
};
use gitgate::github::{License, Owner, RepoMeta};
use gitgate::policy::{Action, Config, Decision, NoLicenseAction};

fn list(names: &[&str]) -> Vec<String> {
    names.iter().map(|n| n.to_string()).collect()
}

fn meta(license: Option<&str>) -> RepoMeta {
    RepoMeta {
        license: license.map(|id| License { spdx_id: Some(id.to_string()) }),
        created_at: "2011-01-26T19:01:12Z".to_string(),
        stargazers_count: 42,
        owner: Owner { login: "octocat".to_string() },
        full_name: "octocat/Hello-World".to_string(),
    }
}

fn decision(action: Action, reason: &str) -> Decision {
    Decision { action, reason: reason.to_string(), reasons: list(&[reason]) }
}

#[test]
fn repository_arguments() {
    assert_eq!(parse_repo("octocat/Hello-World"), Ok(("octocat", "Hello-World")));
    assert_eq!(parse_repo("a/b/c"), Ok(("a", "b/c")));
    assert_eq!(parse_repo("ä/ö"), Ok(("ä", "ö")));
    for bad in ["", "/", "a", "a/", "/b"] {
        assert_eq!(
            parse_repo(bad),
            Err(format!("invalid repo format — expected owner/repo, got: {}", bad))
        );
    }
}

#[test]
fn allowed_clone_runs_git() {
    let step = clone_step(
        "torvalds/linux",
        &list(&["--depth", "1", "my-dir"]),
        &decision(Action::Allow, "license: GPL-2.0"),
        "gg-1",
    );
    assert_eq!(
        step,
        CloneStep::RunGit {
            notice: "  GitGate: ALLOW — license: GPL-2.0\n".to_string(),
            args: list(&["clone", "https://github.com/torvalds/linux", "--depth", "1", "my-dir"]),
        }
    );
}

#[test]
fn blocked_clone_is_explained() {
    let step =
        clone_step("o/r", &Vec::new(), &decision(Action::Block, "no_license"), "gg-1");
    let rule = "─".repeat(45);
    assert_eq!(
        step,
        CloneStep::Abort {
            message: format!(
                "\n  GitGate Policy Block\n  {}\n  Repository : o/r\n  Reason     : no_license\n  \
                 Audit ID   : gg-1\n\n  Clone aborted. Contact your security team to request an \
                 exception.\n",
                rule
            ),
            exit_code: 1,
        }
    );
}

#[test]
fn clone_decides_and_records() {
    let (entry, step) =
        clone_command("octocat/Hello-World", &Vec::new(), &Config::default(), &meta(Some("MIT")));
    assert_eq!(entry.action, Action::Allow);
    assert_eq!(entry.repo, "octocat/Hello-World");
    assert!(matches!(step, CloneStep::RunGit { .. }));

    let (entry, step) =
        clone_command("octocat/Hello-World", &Vec::new(), &Config::default(), &meta(None));
    assert_eq!(entry.reasons, list(&["no_license"]));
    match step {
        CloneStep::Abort { message, exit_code } => {
            assert!(message.contains(&format!("Audit ID   : {}\n", entry.id)));
            assert_eq!(exit_code, 1);
        }
        CloneStep::RunGit { .. } => panic!("git must not run"),
    }
}

#[test]
fn exit_code_of_git_is_passed_on() {
    assert_eq!(exit_code(Some(128)), 128);
    assert_eq!(exit_code(Some(0)), 0);
    assert_eq!(exit_code(None), 1);
}

#[test]
fn dry_run_reports() {
    assert_eq!(
        check_report("o/r", &meta(Some("MIT")), 3, &decision(Action::Allow, "license: MIT")),
        CheckReport {
            text: "  Repository : o/r\n  License    : MIT\n  Age        : 3 days\n  \
                   Stars      : 42\n  Decision   : ALLOW\n  Reason     : license: MIT\n"
                .to_string(),
            exit_code: 0,
        }
    );
    let blocked = check_report("o/r", &meta(None), -3, &decision(Action::Block, "no_license"));
    assert_eq!(
        blocked.text,
        "  Repository : o/r\n  License    : none\n  Age        : -3 days\n  Stars      : 42\n  \
         Decision   : BLOCK\n  Reason     : no_license\n"
    );
    assert_eq!(blocked.exit_code, 1);
}

#[test]
fn dry_run_decides() {
    assert_eq!(check_command("o/r", &Config::default(), &meta(Some("MIT"))).exit_code, 0);
    let report = check_command("o/r", &Config::default(), &meta(None));
    assert_eq!(report.exit_code, 1);
    assert!(report.text.contains("  Reason     : no_license\n"));
}

#[test]
fn policy_is_shown() {
    assert_eq!(
        policy_show_command(&Config::default(), "p.yaml"),
        "  Policy file : p.yaml
  License allowlist  : (any)
  License blocklist  : (none)
  No-license action  : Block
  Min repo age       : 180 days
  Min stars          : 0
  Org allowlist      : (none)
  Org blocklist      : (none)
  Exceptions         : (none)
  Audit log          : audit.jsonl
"
    );
    let config = Config {
        license_allowlist: list(&["MIT", "ISC"]),
        license_blocklist: list(&["GPL-2.0"]),
        no_license_action: NoLicenseAction::Allow,
        min_repo_age_days: 30,
        min_star_count: 10,
        org_allowlist: list(&["a"]),
        org_blocklist: list(&["b", "c", "d"]),
        exceptions: list(&["o/r"]),
        audit_log_path: "/var/log/a".to_string(),
    };
    assert_eq!(
        policy_show_command(&config, "/etc/p"),
        "  Policy file : /etc/p
  License allowlist  : MIT, ISC
  License blocklist  : GPL-2.0
  No-license action  : Allow
  Min repo age       : 30 days
  Min stars          : 10
  Org allowlist      : a
  Org blocklist      : b, c, d
  Exceptions         : o/r
  Audit log          : /var/log/a
"
    );
}

#[test]
fn a_failed_audit_write_stops_the_clone() {
    let step = || CloneStep::RunGit { notice: "n".to_string(), args: vec!["clone".to_string()] };
    assert_eq!(after_audit(Ok::<(), String>(()), step()), Ok(step()));
    assert_eq!(after_audit(Err("disk full".to_string()), step()), Err("disk full".to_string()));
}
