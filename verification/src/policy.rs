//! The policy: what it holds and what it decides.
use crate::clock::{utc_now, ClockReading, Timestamp};
use crate::github::{RepoMeta, RepoView};
use crate::text::{
    decimal, i64_text, list_contains, optional_text, same_text, signed_decimal, single, texts,
    u64_text,
};
use vstd::prelude::*;
use vstd::string::*;
use vstd::utf8::is_ascii_chars;

verus! {

/// What to do with a repository that names no license.
#[derive(Clone, Copy, Debug, PartialEq, Eq, Structural)]
pub enum NoLicenseAction {
    Block,
    Allow,
}

/// A policy.
#[derive(Debug)]
pub struct Config {
    pub license_allowlist: Vec<String>,
    pub license_blocklist: Vec<String>,
    pub no_license_action: NoLicenseAction,
    pub min_repo_age_days: i64,
    pub min_star_count: u64,
    pub org_allowlist: Vec<String>,
    pub org_blocklist: Vec<String>,
    pub exceptions: Vec<String>,
    pub audit_log_path: String,
}

/// What a `Config` says.
pub struct ConfigView {
    pub license_allowlist: Seq<Seq<char>>,
    pub license_blocklist: Seq<Seq<char>>,
    pub no_license_action: NoLicenseAction,
    pub min_repo_age_days: int,
    pub min_star_count: nat,
    pub org_allowlist: Seq<Seq<char>>,
    pub org_blocklist: Seq<Seq<char>>,
    pub exceptions: Seq<Seq<char>>,
    pub audit_log_path: Seq<char>,
}

impl View for Config {
    type V = ConfigView;

    open spec fn view(&self) -> ConfigView {
        ConfigView {
            license_allowlist: texts(self.license_allowlist@),
            license_blocklist: texts(self.license_blocklist@),
            no_license_action: self.no_license_action,
            min_repo_age_days: self.min_repo_age_days as int,
            min_star_count: self.min_star_count as nat,
            org_allowlist: texts(self.org_allowlist@),
            org_blocklist: texts(self.org_blocklist@),
            exceptions: texts(self.exceptions@),
            audit_log_path: self.audit_log_path@,
        }
    }
}

/// Whether a clone may go ahead.
#[derive(Clone, Copy, Debug, PartialEq, Eq, Structural)]
pub enum Action {
    Allow,
    Block,
}

impl Action {
    /// The word for the action in reports and in the audit log.
    pub open spec fn word(self) -> Seq<char> {
        match self {
            Action::Allow => "ALLOW"@,
            Action::Block => "BLOCK"@,
        }
    }

    /// The word for the action in reports and in the audit log.
    pub fn label(&self) -> (label: &'static str)
        ensures
            label@ == self.word(),
    {
        match self {
            Action::Allow => "ALLOW",
            Action::Block => "BLOCK",
        }
    }
}

/// What the policy says of a repository, and why.
#[derive(Debug)]
pub struct Decision {
    pub action: Action,
    /// The reason that people are told.
    pub reason: String,
    /// All reasons, as the audit log keeps them.
    pub reasons: Vec<String>,
}

/// What a `Decision` says.
#[verifier::ext_equal]
pub struct DecisionView {
    pub action: Action,
    pub reason: Seq<char>,
    pub reasons: Seq<Seq<char>>,
}

impl View for Decision {
    type V = DecisionView;

    open spec fn view(&self) -> DecisionView {
        DecisionView {
            action: self.action,
            reason: self.reason@,
            reasons: texts(self.reasons@),
        }
    }
}

// ---------------------------------------------------------------------------
// Defaults
// ---------------------------------------------------------------------------

/// A repository without a license is blocked unless the policy says otherwise.
pub fn default_no_license_action() -> (action: NoLicenseAction)
    ensures
        action == NoLicenseAction::Block,
{
    NoLicenseAction::Block
}

/// The minimum age, in days, where the policy gives none.
pub fn default_min_age() -> (days: i64)
    ensures
        days == 180,
{
    180
}

/// Where the audit log goes when the policy does not say.
pub fn default_audit_path() -> (path: String)
    ensures
        path@ == "audit.jsonl"@,
{
    "audit.jsonl".to_owned()
}

impl Default for Config {
    /// The policy that an empty policy file describes.
    fn default() -> (config: Config)
        ensures
            config@ == (ConfigView {
                license_allowlist: Seq::empty(),
                license_blocklist: Seq::empty(),
                no_license_action: NoLicenseAction::Block,
                min_repo_age_days: 180,
                min_star_count: 0,
                org_allowlist: Seq::empty(),
                org_blocklist: Seq::empty(),
                exceptions: Seq::empty(),
                audit_log_path: "audit.jsonl"@,
            }),
    {
        let empty: Vec<String> = Vec::new();
        assert(texts(empty@) =~= Seq::<Seq<char>>::empty());
        Config {
            license_allowlist: Vec::new(),
            license_blocklist: Vec::new(),
            no_license_action: default_no_license_action(),
            min_repo_age_days: default_min_age(),
            min_star_count: 0,
            org_allowlist: Vec::new(),
            org_blocklist: Vec::new(),
            exceptions: Vec::new(),
            audit_log_path: default_audit_path(),
        }
    }
}

// ---------------------------------------------------------------------------
// Names without regard to case
// ---------------------------------------------------------------------------

/// The lowercase form of a text that is not ASCII, as `str::to_lowercase` gives it.
pub uninterp spec fn unicode_lowercase(text: Seq<char>) -> Seq<char>;

/// The uppercase form of a text that is not ASCII, as `str::to_uppercase` gives it.
pub uninterp spec fn unicode_uppercase(text: Seq<char>) -> Seq<char>;

/// An ASCII letter in lower case; any other character as it is.
pub open spec fn ascii_lower(c: char) -> char {
    if 'A' <= c <= 'Z' {
        (c as int + 32) as char
    } else {
        c
    }
}

/// An ASCII letter in upper case; any other character as it is.
pub open spec fn ascii_upper(c: char) -> char {
    if 'a' <= c <= 'z' {
        (c as int - 32) as char
    } else {
        c
    }
}

/// `str::to_lowercase`: an ASCII text has each of its letters in lower case. For
/// any other text the result has a name, and Unicode's case tables are not
/// spelled out; ASCII letters go to lower case in it too, so that which case they
/// are in makes no difference.
pub assume_specification[ str::to_lowercase ](text: &str) -> (lower: String)
    ensures
        is_ascii_chars(text@) ==> lower@ == text@.map_values(|c: char| ascii_lower(c)),
        !is_ascii_chars(text@) ==> lower@ == unicode_lowercase(text@),
        !is_ascii_chars(text@) ==> lower@ == unicode_lowercase(
            text@.map_values(|c: char| ascii_lower(c)),
        ),
;

/// `str::to_uppercase`: an ASCII text has each of its letters in upper case. For
/// any other text the result has a name, and Unicode's case tables are not
/// spelled out; ASCII letters go to upper case in it too, so that which case they
/// are in makes no difference.
pub assume_specification[ str::to_uppercase ](text: &str) -> (upper: String)
    ensures
        is_ascii_chars(text@) ==> upper@ == text@.map_values(|c: char| ascii_upper(c)),
        !is_ascii_chars(text@) ==> upper@ == unicode_uppercase(text@),
        !is_ascii_chars(text@) ==> upper@ == unicode_uppercase(
            text@.map_values(|c: char| ascii_upper(c)),
        ),
;

/// The lowercase form of a text.
pub open spec fn lowercase(text: Seq<char>) -> Seq<char> {
    let lower = text.map_values(|c: char| ascii_lower(c));
    if is_ascii_chars(text) {
        lower
    } else {
        unicode_lowercase(lower)
    }
}

/// The uppercase form of a text.
pub open spec fn uppercase(text: Seq<char>) -> Seq<char> {
    let upper = text.map_values(|c: char| ascii_upper(c));
    if is_ascii_chars(text) {
        upper
    } else {
        unicode_uppercase(upper)
    }
}

/// The names that a decision compares, each in one case: the repository and
/// the lists that it is looked up in. Account and repository names are in
/// lower case, licenses in upper case.
#[derive(Debug)]
pub struct FoldedNames {
    pub repo: String,
    pub owner: String,
    pub license: Option<String>,
    pub exceptions: Vec<String>,
    pub org_blocklist: Vec<String>,
    pub org_allowlist: Vec<String>,
    pub license_blocklist: Vec<String>,
    pub license_allowlist: Vec<String>,
}

/// What a `FoldedNames` says.
#[verifier::ext_equal]
pub struct FoldedView {
    pub repo: Seq<char>,
    pub owner: Seq<char>,
    pub license: Option<Seq<char>>,
    pub exceptions: Seq<Seq<char>>,
    pub org_blocklist: Seq<Seq<char>>,
    pub org_allowlist: Seq<Seq<char>>,
    pub license_blocklist: Seq<Seq<char>>,
    pub license_allowlist: Seq<Seq<char>>,
}

impl View for FoldedNames {
    type V = FoldedView;

    open spec fn view(&self) -> FoldedView {
        FoldedView {
            repo: self.repo@,
            owner: self.owner@,
            license: optional_text(self.license),
            exceptions: texts(self.exceptions@),
            org_blocklist: texts(self.org_blocklist@),
            org_allowlist: texts(self.org_allowlist@),
            license_blocklist: texts(self.license_blocklist@),
            license_allowlist: texts(self.license_allowlist@),
        }
    }
}

/// Every name of a list in lower case.
pub open spec fn lowercased(names: Seq<Seq<char>>) -> Seq<Seq<char>> {
    names.map_values(|name: Seq<char>| lowercase(name))
}

/// Every name of a list in upper case.
pub open spec fn uppercased(names: Seq<Seq<char>>) -> Seq<Seq<char>> {
    names.map_values(|name: Seq<char>| uppercase(name))
}

/// The names that matter to `repo` under `policy`.
pub open spec fn folded(policy: ConfigView, repo: RepoView) -> FoldedView {
    FoldedView {
        repo: lowercase(repo.full_name),
        owner: lowercase(repo.owner),
        license: match repo.license_id {
            Some(id) => Some(uppercase(id)),
            None => None,
        },
        exceptions: lowercased(policy.exceptions),
        org_blocklist: lowercased(policy.org_blocklist),
        org_allowlist: lowercased(policy.org_allowlist),
        license_blocklist: uppercased(policy.license_blocklist),
        license_allowlist: uppercased(policy.license_allowlist),
    }
}

fn lowercase_list(names: &Vec<String>) -> (lower: Vec<String>)
    ensures
        texts(lower@) == lowercased(texts(names@)),
{
    let mut lower: Vec<String> = Vec::new();
    let mut i: usize = 0;
    while i < names.len()
        invariant
            i <= names.len(),
            lower.len() == i,
            forall|j: int| 0 <= j < i ==> lower@[j]@ == lowercase(names@[j]@),
        decreases names.len() - i,
    {
        lower.push(names[i].as_str().to_lowercase());
        i = i + 1;
    }
    assert(texts(lower@) =~= lowercased(texts(names@)));
    lower
}

fn uppercase_list(names: &Vec<String>) -> (upper: Vec<String>)
    ensures
        texts(upper@) == uppercased(texts(names@)),
{
    let mut upper: Vec<String> = Vec::new();
    let mut i: usize = 0;
    while i < names.len()
        invariant
            i <= names.len(),
            upper.len() == i,
            forall|j: int| 0 <= j < i ==> upper@[j]@ == uppercase(names@[j]@),
        decreases names.len() - i,
    {
        upper.push(names[i].as_str().to_uppercase());
        i = i + 1;
    }
    assert(texts(upper@) =~= uppercased(texts(names@)));
    upper
}

impl FoldedNames {
    /// Brings the names that matter to a repository under a policy into one case.
    pub fn new(config: &Config, meta: &RepoMeta) -> (names: FoldedNames)
        ensures
            names@ == folded(config@, meta@),
    {
        let license = match meta.license_id() {
            Some(id) => Some(id.to_uppercase()),
            None => None,
        };
        FoldedNames {
            repo: meta.full_name.as_str().to_lowercase(),
            owner: meta.owner.login.as_str().to_lowercase(),
            license,
            exceptions: lowercase_list(&config.exceptions),
            org_blocklist: lowercase_list(&config.org_blocklist),
            org_allowlist: lowercase_list(&config.org_allowlist),
            license_blocklist: uppercase_list(&config.license_blocklist),
            license_allowlist: uppercase_list(&config.license_allowlist),
        }
    }
}

// ---------------------------------------------------------------------------
// The decision
// ---------------------------------------------------------------------------

/// What is held against the license.
pub open spec fn license_findings(
    policy: ConfigView,
    id: Option<Seq<char>>,
    names: FoldedView,
) -> Seq<Seq<char>> {
    match id {
        None => if policy.no_license_action == NoLicenseAction::Block {
            seq!["no_license"@]
        } else {
            Seq::empty()
        },
        Some(id) => if id == "NOASSERTION"@ || id == "NONE"@ {
            seq!["license_unrecognized"@]
        } else if names.license matches Some(l) && names.license_blocklist.contains(l) {
            seq!["license_blocklisted:"@ + id]
        } else if names.license_allowlist.len() > 0 && !(names.license matches Some(l)
            && names.license_allowlist.contains(l)) {
            seq!["license_not_allowed:"@ + id]
        } else {
            Seq::empty()
        },
    }
}

/// What is held against the age.
pub open spec fn age_findings(policy: ConfigView, age: int) -> Seq<Seq<char>> {
    if age < policy.min_repo_age_days {
        seq![
            "repo_too_young ("@ + signed_decimal(age) + " days old, minimum "@ + signed_decimal(
                policy.min_repo_age_days,
            ) + ")"@,
        ]
    } else {
        Seq::empty()
    }
}

/// What is held against the number of stars.
pub open spec fn star_findings(policy: ConfigView, stars: nat) -> Seq<Seq<char>> {
    if stars < policy.min_star_count {
        seq!["stars_below_threshold:"@ + decimal(stars)]
    } else {
        Seq::empty()
    }
}

/// Everything that is held against a repository, in the order of the checks.
pub open spec fn findings(
    policy: ConfigView,
    repo: RepoView,
    names: FoldedView,
    age: int,
) -> Seq<Seq<char>> {
    license_findings(policy, repo.license_id, names) + age_findings(policy, age) + star_findings(
        policy,
        repo.stars,
    )
}

/// Why a repository that passed every check is let through.
pub open spec fn pass_reason(repo: RepoView) -> Seq<char> {
    match repo.license_id {
        Some(id) => "license: "@ + id,
        None => "all checks passed"@,
    }
}

/// What the policy says of a repository of a given age, by names in one case.
///
/// The exception list comes first, then the blocked owners, then the allowed
/// owners; for any other repository every check has to pass.
pub open spec fn decision(
    policy: ConfigView,
    repo: RepoView,
    names: FoldedView,
    age: int,
) -> DecisionView {
    if names.exceptions.contains(names.repo) {
        DecisionView {
            action: Action::Allow,
            reason: "'"@ + names.repo + "' is in the exception list"@,
            reasons: seq!["exception"@],
        }
    } else if names.org_blocklist.contains(names.owner) {
        DecisionView {
            action: Action::Block,
            reason: "org '"@ + names.owner + "' is blocklisted"@,
            reasons: seq!["org_blocklisted"@],
        }
    } else if names.org_allowlist.contains(names.owner) {
        DecisionView {
            action: Action::Allow,
            reason: "org '"@ + names.owner + "' is allowlisted"@,
            reasons: seq!["org_allowlisted"@],
        }
    } else {
        let against = findings(policy, repo, names, age);
        if against.len() == 0 {
            DecisionView {
                action: Action::Allow,
                reason: pass_reason(repo),
                reasons: seq!["allowed"@],
            }
        } else {
            DecisionView { action: Action::Block, reason: against[0], reasons: against }
        }
    }
}

/// What the policy says of a repository at a given moment.
pub open spec fn decision_at(policy: ConfigView, repo: RepoView, now: Timestamp) -> DecisionView {
    decision(policy, repo, folded(policy, repo), repo.age_at(now))
}

/// Checks the license of a repository.
fn check_license(config: &Config, meta: &RepoMeta, names: &FoldedNames) -> (against: Option<String>)
    ensures
        license_findings(config@, meta@.license_id, names@) == (match against {
            Some(finding) => seq![finding@],
            None => Seq::empty(),
        }),
{
    match meta.license_id() {
        None => match config.no_license_action {
            NoLicenseAction::Block => Some("no_license".to_owned()),
            NoLicenseAction::Allow => None,
        },
        Some(id) => if same_text(id, "NOASSERTION") || same_text(id, "NONE") {
            Some("license_unrecognized".to_owned())
        } else {
            let (blocked, allowed) = match &names.license {
                Some(license) => (
                    list_contains(&names.license_blocklist, license),
                    list_contains(&names.license_allowlist, license),
                ),
                None => (false, false),
            };
            assert(texts(names.license_allowlist@).len() == names.license_allowlist.len());
            if blocked {
                Some("license_blocklisted:".to_owned().concat(id))
            } else if names.license_allowlist.len() > 0 && !allowed {
                Some("license_not_allowed:".to_owned().concat(id))
            } else {
                None
            }
        },
    }
}

/// Checks the age of a repository.
fn check_age(config: &Config, age: i64) -> (against: Option<String>)
    ensures
        age_findings(config@, age as int) == (match against {
            Some(finding) => seq![finding@],
            None => Seq::empty(),
        }),
{
    if age < config.min_repo_age_days {
        let days = i64_text(age);
        let minimum = i64_text(config.min_repo_age_days);
        Some(
            "repo_too_young (".to_owned().concat(days.as_str()).concat(
                " days old, minimum ",
            ).concat(minimum.as_str()).concat(")"),
        )
    } else {
        None
    }
}

/// Checks the number of stars of a repository.
fn check_stars(config: &Config, stars: u64) -> (against: Option<String>)
    ensures
        star_findings(config@, stars as nat) == (match against {
            Some(finding) => seq![finding@],
            None => Seq::empty(),
        }),
{
    if stars < config.min_star_count {
        Some("stars_below_threshold:".to_owned().concat(u64_text(stars).as_str()))
    } else {
        None
    }
}

/// Appends a finding to a list, if there is one.
fn note(against: &mut Vec<String>, finding: Option<String>)
    ensures
        texts(final(against)@) == texts(old(against)@) + (match finding {
            Some(text) => seq![text@],
            None => Seq::empty(),
        }),
{
    match finding {
        Some(text) => {
            against.push(text);
        },
        None => {},
    }
    assert(texts(against@) =~= texts(old(against)@) + (match finding {
        Some(text) => seq![text@],
        None => Seq::empty(),
    }));
}

/// Decides on a repository of a given age, by names in one case.
pub fn decide(config: &Config, meta: &RepoMeta, names: &FoldedNames, age: i64) -> (d: Decision)
    ensures
        d@ == decision(config@, meta@, names@, age as int),
{
    if list_contains(&names.exceptions, &names.repo) {
        return Decision {
            action: Action::Allow,
            reason: "'".to_owned().concat(names.repo.as_str()).concat("' is in the exception list"),
            reasons: single("exception"),
        };
    }
    if list_contains(&names.org_blocklist, &names.owner) {
        return Decision {
            action: Action::Block,
            reason: "org '".to_owned().concat(names.owner.as_str()).concat("' is blocklisted"),
            reasons: single("org_blocklisted"),
        };
    }
    if list_contains(&names.org_allowlist, &names.owner) {
        return Decision {
            action: Action::Allow,
            reason: "org '".to_owned().concat(names.owner.as_str()).concat("' is allowlisted"),
            reasons: single("org_allowlisted"),
        };
    }
    let mut against: Vec<String> = Vec::new();
    assert(texts(against@) =~= Seq::<Seq<char>>::empty());
    note(&mut against, check_license(config, meta, names));
    assert(texts(against@) =~= license_findings(config@, meta@.license_id, names@));
    note(&mut against, check_age(config, age));
    note(&mut against, check_stars(config, meta.stargazers_count));
    assert(texts(against@) =~= findings(config@, meta@, names@, age as int));
    assert(texts(against@).len() == against.len());
    if against.len() == 0 {
        let reason = match meta.license_id() {
            Some(id) => "license: ".to_owned().concat(id),
            None => "all checks passed".to_owned(),
        };
        Decision { action: Action::Allow, reason, reasons: single("allowed") }
    } else {
        assert(texts(against@)[0] == against@[0]@);
        Decision { action: Action::Block, reason: against[0].clone(), reasons: against }
    }
}

/// Decides on a repository at a given moment.
pub fn evaluate_at(config: &Config, meta: &RepoMeta, now: Timestamp) -> (d: Decision)
    requires
        now.valid(),
    ensures
        d@ == decision_at(config@, meta@, now),
{
    let names = FoldedNames::new(config, meta);
    let age = meta.age_days_at(now);
    decide(config, meta, &names, age)
}

/// Decides on a repository, by the system clock.
pub fn evaluate(config: &Config, meta: &RepoMeta) -> (d: Decision)
    ensures
        exists|now: ClockReading|
            now@.valid() && d@ == #[trigger] decision_at(config@, meta@, now@),
{
    let now = utc_now();
    evaluate_at(config, meta, now.moment())
}

} // verus!
