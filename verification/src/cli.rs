//! The `gitgate` command: what it does with its arguments and what it says.
use crate::audit::{records, Entry};
use crate::clock::ClockReading;
use crate::github::{RepoMeta, RepoView};
use crate::policy::{
    decision_at, evaluate, Action, Config, ConfigView, Decision, DecisionView, NoLicenseAction,
};
use crate::text::{
    chars_of, decimal, find_from, first_index, i64_text, join, joined, signed_decimal, texts,
    u64_text,
};
use vstd::prelude::*;
use vstd::string::*;

verus! {

// ---------------------------------------------------------------------------
// The repository argument
// ---------------------------------------------------------------------------

/// The parts of a repository argument before and after its first slash; both
/// have to be there.
pub open spec fn split_repo(repo: Seq<char>) -> Option<(Seq<char>, Seq<char>)> {
    let slash = first_index(repo, '/');
    if 0 < slash && slash + 1 < repo.len() {
        Some((repo.take(slash), repo.skip(slash + 1)))
    } else {
        None
    }
}

/// Splits a repository argument into owner and name. The error is the message
/// for one that is not of the form `owner/repo`.
pub fn parse_repo(repo: &str) -> (parts: Result<(&str, &str), String>)
    ensures
        match split_repo(repo@) {
            Some((owner, name)) => parts matches Ok(p) && p.0@ == owner && p.1@ == name,
            None => parts matches Err(message) && message@
                == "invalid repo format — expected owner/repo, got: "@ + repo@,
        },
{
    let chars = chars_of(repo);
    let slash = find_from(&chars, 0, '/');
    assert(repo@.skip(0) =~= repo@);
    if 0 < slash && slash < chars.len() && slash + 1 < chars.len() {
        let owner = repo.substring_char(0, slash);
        let name = repo.substring_char(slash + 1, chars.len());
        assert(owner@ =~= repo@.take(slash as int));
        assert(name@ =~= repo@.skip(slash + 1));
        Ok((owner, name))
    } else {
        Err("invalid repo format — expected owner/repo, got: ".to_owned().concat(repo))
    }
}

// ---------------------------------------------------------------------------
// gitgate clone
// ---------------------------------------------------------------------------

/// How `gitgate clone` goes on once the policy has spoken.
#[derive(Debug, PartialEq, Eq)]
pub enum CloneStep {
    /// Print the notice, run git with these arguments, and exit as it does.
    RunGit { notice: String, args: Vec<String> },
    /// Print the message as an error and exit with the code.
    Abort { message: String, exit_code: i32 },
}

/// What a `CloneStep` says.
pub enum CloneView {
    RunGit { notice: Seq<char>, args: Seq<Seq<char>> },
    Abort { message: Seq<char>, exit_code: i32 },
}

impl View for CloneStep {
    type V = CloneView;

    open spec fn view(&self) -> CloneView {
        match *self {
            CloneStep::RunGit { notice, args } => CloneView::RunGit {
                notice: notice@,
                args: texts(args@),
            },
            CloneStep::Abort { message, exit_code } => CloneView::Abort {
                message: message@,
                exit_code,
            },
        }
    }
}

/// A rule of the given length.
pub open spec fn rule(length: nat) -> Seq<char> {
    Seq::new(length, |i: int| '─')
}

/// What is said of a blocked clone.
pub open spec fn block_notice(
    repo: Seq<char>,
    reason: Seq<char>,
    audit_id: Seq<char>,
) -> Seq<char> {
    "\n  GitGate Policy Block\n  "@ + rule(45) + "\n  Repository : "@ + repo
        + "\n  Reason     : "@ + reason + "\n  Audit ID   : "@ + audit_id
        + "\n\n  Clone aborted. Contact your security team to request an exception.\n"@
}

/// How a clone goes on after a decision: git is run for an allowed repository
/// with the arguments given, and for no other.
pub open spec fn clone_outcome(
    repo: Seq<char>,
    git_args: Seq<Seq<char>>,
    decision: DecisionView,
    audit_id: Seq<char>,
) -> CloneView {
    match decision.action {
        Action::Allow => CloneView::RunGit {
            notice: "  GitGate: ALLOW — "@ + decision.reason + "\n"@,
            args: seq!["clone"@, "https://github.com/"@ + repo] + git_args,
        },
        Action::Block => CloneView::Abort {
            message: block_notice(repo, decision.reason, audit_id),
            exit_code: 1,
        },
    }
}

/// Writes a rule of the given length.
fn rule_text(length: usize) -> (text: String)
    ensures
        text@ == rule(length as nat),
{
    let mut text: String = String::new();
    let mut i: usize = 0;
    assert(text@ =~= rule(0));
    while i < length
        invariant
            i <= length,
            text@ == rule(i as nat),
        decreases length - i,
    {
        proof {
            reveal_strlit("─");
        }
        let ghost before = text@;
        text = text.concat("─");
        i = i + 1;
        assert(text@ =~= rule(i as nat));
    }
    text
}

/// How a clone goes on after a decision.
pub fn clone_step(repo: &str, git_args: &Vec<String>, decision: &Decision, audit_id: &str) -> (step:
    CloneStep)
    ensures
        step@ == clone_outcome(repo@, texts(git_args@), decision@, audit_id@),
{
    match decision.action {
        Action::Allow => {
            let notice = "  GitGate: ALLOW — ".to_owned().concat(decision.reason.as_str()).concat(
                "\n",
            );
            let mut args: Vec<String> = Vec::new();
            args.push("clone".to_owned());
            args.push("https://github.com/".to_owned().concat(repo));
            let mut i: usize = 0;
            while i < git_args.len()
                invariant
                    i <= git_args.len(),
                    args.len() == i + 2,
                    args@[0]@ == "clone"@,
                    args@[1]@ == "https://github.com/"@ + repo@,
                    forall|j: int| 0 <= j < i ==> #[trigger] args@[j + 2]@ == git_args@[j]@,
                decreases git_args.len() - i,
            {
                args.push(git_args[i].clone());
                i = i + 1;
            }
            proof {
                let all = seq!["clone"@, "https://github.com/"@ + repo@] + texts(git_args@);
                assert forall|k: int| 0 <= k < args.len() implies texts(args@)[k] == all[k] by {
                    if k >= 2 {
                        assert(args@[(k - 2) + 2]@ == git_args@[k - 2]@);
                    }
                }
                assert(texts(args@) =~= all);
            }
            CloneStep::RunGit { notice, args }
        },
        Action::Block => {
            let line = rule_text(45);
            let message = "\n  GitGate Policy Block\n  ".to_owned().concat(line.as_str()).concat(
                "\n  Repository : ",
            ).concat(repo).concat("\n  Reason     : ").concat(decision.reason.as_str()).concat(
                "\n  Audit ID   : ",
            ).concat(audit_id).concat(
                "\n\n  Clone aborted. Contact your security team to request an exception.\n",
            );
            CloneStep::Abort { message, exit_code: 1 }
        },
    }
}

/// Decides on the repository that is to be cloned. Gives the entry for the
/// audit log, which is to be written first, and how the clone then goes on.
pub fn clone_command(repo: &str, git_args: &Vec<String>, config: &Config, meta: &RepoMeta) -> (done:
    (Entry, CloneStep))
    ensures
        exists|now: ClockReading|
            {
                let d = #[trigger] decision_at(config@, meta@, now@);
                &&& now@.valid()
                &&& records(done.0@, repo@, meta@, d)
                &&& done.1@ == clone_outcome(repo@, texts(git_args@), d, done.0@.id)
            },
{
    let decision = evaluate(config, meta);
    let entry = Entry::new(repo, meta, &decision);
    let step = clone_step(repo, git_args, &decision, entry.id.as_str());
    (entry, step)
}

/// How a clone goes on once its entry was to be written to the audit log: as
/// decided if that worked. If it did not, nothing is cloned and the error is all
/// there is.
pub fn after_audit<E>(written: Result<(), E>, step: CloneStep) -> (next: Result<CloneStep, E>)
    ensures
        match written {
            Ok(_) => next == Ok::<CloneStep, E>(step),
            Err(error) => next == Err::<CloneStep, E>(error),
        },
{
    match written {
        Ok(_) => Ok(step),
        Err(error) => Err(error),
    }
}

/// The exit code to pass on: that of git, or 1 where it was ended by a signal.
pub fn exit_code(status: Option<i32>) -> (code: i32)
    ensures
        code == (match status {
            Some(c) => c,
            None => 1,
        }),
{
    match status {
        Some(c) => c,
        None => 1,
    }
}

// ---------------------------------------------------------------------------
// gitgate check
// ---------------------------------------------------------------------------

/// The result of a dry run.
#[derive(Debug, PartialEq, Eq)]
pub struct CheckReport {
    pub text: String,
    pub exit_code: i32,
}

/// What a dry run reports.
pub open spec fn report_text(
    repo: Seq<char>,
    meta: RepoView,
    age: int,
    decision: DecisionView,
) -> Seq<char> {
    "  Repository : "@ + repo + "\n  License    : "@ + (match meta.license_id {
        Some(id) => id,
        None => "none"@,
    }) + "\n  Age        : "@ + signed_decimal(age) + " days\n  Stars      : "@ + decimal(meta.stars)
        + "\n  Decision   : "@ + decision.action.word() + "\n  Reason     : "@ + decision.reason
        + "\n"@
}

/// The exit code of a dry run: 1 for a blocked repository.
pub open spec fn report_code(decision: DecisionView) -> i32 {
    match decision.action {
        Action::Allow => 0,
        Action::Block => 1,
    }
}

/// Reports a decision on a repository of a given age.
pub fn check_report(repo: &str, meta: &RepoMeta, age: i64, decision: &Decision) -> (report:
    CheckReport)
    ensures
        report.text@ == report_text(repo@, meta@, age as int, decision@),
        report.exit_code == report_code(decision@),
{
    let license = match meta.license_id() {
        Some(id) => id,
        None => "none",
    };
    let days = i64_text(age);
    let stars = u64_text(meta.stargazers_count);
    let text = "  Repository : ".to_owned().concat(repo).concat("\n  License    : ").concat(
        license,
    ).concat("\n  Age        : ").concat(days.as_str()).concat(" days\n  Stars      : ").concat(
        stars.as_str(),
    ).concat("\n  Decision   : ").concat(decision.action.label()).concat(
        "\n  Reason     : ",
    ).concat(decision.reason.as_str()).concat("\n");
    let exit_code: i32 = match decision.action {
        Action::Allow => 0,
        Action::Block => 1,
    };
    CheckReport { text, exit_code }
}

/// Decides on a repository without cloning it, and reports the decision. The
/// age that is reported is read off the clock after the one that decided.
pub fn check_command(repo: &str, config: &Config, meta: &RepoMeta) -> (report: CheckReport)
    ensures
        exists|now: ClockReading, later: ClockReading|
            {
                let d = #[trigger] decision_at(config@, meta@, now@);
                &&& now@.valid() && later@.valid()
                &&& report.text@ == report_text(repo@, meta@, #[trigger] meta@.age_at(later@), d)
                &&& report.exit_code == report_code(d)
            },
{
    let decision = evaluate(config, meta);
    let age = meta.age_days();
    check_report(repo, meta, age, &decision)
}

// ---------------------------------------------------------------------------
// gitgate policy show
// ---------------------------------------------------------------------------

/// A list as it is shown, or a word for an empty one.
pub open spec fn shown_list(list: Seq<Seq<char>>, if_empty: Seq<char>) -> Seq<char> {
    if list.len() == 0 {
        if_empty
    } else {
        joined(list, ", "@)
    }
}

/// A policy and where it was found, as they are shown.
pub open spec fn policy_text(policy: ConfigView, path: Seq<char>) -> Seq<char> {
    "  Policy file : "@ + path + "\n  License allowlist  : "@ + shown_list(
        policy.license_allowlist,
        "(any)"@,
    ) + "\n  License blocklist  : "@ + shown_list(policy.license_blocklist, "(none)"@)
        + "\n  No-license action  : "@ + (match policy.no_license_action {
        NoLicenseAction::Block => "Block"@,
        NoLicenseAction::Allow => "Allow"@,
    }) + "\n  Min repo age       : "@ + signed_decimal(policy.min_repo_age_days)
        + " days\n  Min stars          : "@ + decimal(policy.min_star_count)
        + "\n  Org allowlist      : "@ + shown_list(policy.org_allowlist, "(none)"@)
        + "\n  Org blocklist      : "@ + shown_list(policy.org_blocklist, "(none)"@)
        + "\n  Exceptions         : "@ + shown_list(policy.exceptions, "(none)"@)
        + "\n  Audit log          : "@ + policy.audit_log_path + "\n"@
}

/// Shows a list.
fn show_list(list: &Vec<String>, if_empty: &str) -> (text: String)
    ensures
        text@ == shown_list(texts(list@), if_empty@),
{
    assert(texts(list@).len() == list.len());
    if list.len() == 0 {
        if_empty.to_owned()
    } else {
        join(list, ", ")
    }
}

/// Shows the policy and where it was found.
pub fn policy_show_command(config: &Config, path: &str) -> (text: String)
    ensures
        text@ == policy_text(config@, path@),
{
    let allowlist = show_list(&config.license_allowlist, "(any)");
    let blocklist = show_list(&config.license_blocklist, "(none)");
    let no_license = match config.no_license_action {
        NoLicenseAction::Block => "Block",
        NoLicenseAction::Allow => "Allow",
    };
    let age = i64_text(config.min_repo_age_days);
    let stars = u64_text(config.min_star_count);
    let org_allowlist = show_list(&config.org_allowlist, "(none)");
    let org_blocklist = show_list(&config.org_blocklist, "(none)");
    let exceptions = show_list(&config.exceptions, "(none)");
    "  Policy file : ".to_owned().concat(path).concat("\n  License allowlist  : ").concat(
        allowlist.as_str(),
    ).concat("\n  License blocklist  : ").concat(blocklist.as_str()).concat(
        "\n  No-license action  : ",
    ).concat(no_license).concat("\n  Min repo age       : ").concat(age.as_str()).concat(
        " days\n  Min stars          : ",
    ).concat(stars.as_str()).concat("\n  Org allowlist      : ").concat(
        org_allowlist.as_str(),
    ).concat("\n  Org blocklist      : ").concat(org_blocklist.as_str()).concat(
        "\n  Exceptions         : ",
    ).concat(exceptions.as_str()).concat("\n  Audit log          : ").concat(
        config.audit_log_path.as_str(),
    ).concat("\n")
}

} // verus!
