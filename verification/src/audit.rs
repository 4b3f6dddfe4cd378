//! The audit log: one entry for each decision.
use crate::clock::{rfc3339_text, utc_now, ClockReading};
use crate::github::{RepoMeta, RepoView};
use crate::policy::{Action, Decision, DecisionView};
use crate::text::{copy_list, optional_text, texts};
use vstd::prelude::*;
use vstd::string::*;

verus! {

/// The version that entries are marked with.
pub const VERSION: &'static str = "0.1.0";

/// One entry of the audit log.
#[derive(Debug)]
pub struct Entry {
    pub id: String,
    pub timestamp: String,
    pub action: Action,
    pub repo: String,
    pub license: Option<String>,
    pub repo_age_days: i64,
    pub stars: u64,
    pub reasons: Vec<String>,
    pub gitgate_version: &'static str,
}

/// What an `Entry` says.
#[verifier::ext_equal]
pub struct EntryView {
    pub id: Seq<char>,
    pub timestamp: Seq<char>,
    pub action: Action,
    pub repo: Seq<char>,
    pub license: Option<Seq<char>>,
    pub repo_age_days: int,
    pub stars: nat,
    pub reasons: Seq<Seq<char>>,
    pub gitgate_version: Seq<char>,
}

impl View for Entry {
    type V = EntryView;

    open spec fn view(&self) -> EntryView {
        EntryView {
            id: self.id@,
            timestamp: self.timestamp@,
            action: self.action,
            repo: self.repo@,
            license: optional_text(self.license),
            repo_age_days: self.repo_age_days as int,
            stars: self.stars as nat,
            reasons: texts(self.reasons@),
            gitgate_version: self.gitgate_version@,
        }
    }
}

/// A lowercase hexadecimal digit.
pub open spec fn is_hex_digit(c: char) -> bool {
    '0' <= c <= '9' || 'a' <= c <= 'f'
}

/// A random UUID in the usual notation: five groups of lowercase hexadecimal
/// digits with hyphens between them, with the marks of version 4.
pub open spec fn is_random_uuid(text: Seq<char>) -> bool {
    &&& text.len() == 36
    &&& forall|i: int|
        0 <= i < 36 ==> if i == 8 || i == 13 || i == 18 || i == 23 {
            #[trigger] text[i] == '-'
        } else {
            is_hex_digit(text[i])
        }
    &&& text[14] == '4'
    &&& text[19] == '8' || text[19] == '9' || text[19] == 'a' || text[19] == 'b'
}

/// `uuid::Uuid::new_v4`, written out by its `Display`: some random UUID.
#[verifier::external_body]
fn new_v4() -> (uuid: String)
    ensures
        is_random_uuid(uuid@),
{
    uuid::Uuid::new_v4().to_string()
}

/// The entry for a decision, with a given UUID and time, on a repository of a
/// given age.
pub open spec fn entry(
    repo: Seq<char>,
    meta: RepoView,
    decision: DecisionView,
    uuid: Seq<char>,
    timestamp: Seq<char>,
    age: int,
) -> EntryView {
    EntryView {
        id: "gg-"@ + uuid,
        timestamp,
        action: decision.action,
        repo,
        license: meta.license_id,
        repo_age_days: age,
        stars: meta.stars,
        reasons: decision.reasons,
        gitgate_version: "0.1.0"@,
    }
}

/// Whether an entry is one that a decision may leave, whatever the time and
/// the identifier.
pub open spec fn records(
    e: EntryView,
    repo: Seq<char>,
    meta: RepoView,
    decision: DecisionView,
) -> bool {
    exists|uuid: Seq<char>, at: ClockReading, now: ClockReading|
        is_random_uuid(uuid) && at@.valid() && now@.valid() && e == #[trigger] entry(
            repo,
            meta,
            decision,
            uuid,
            rfc3339_text(at@.secs, at@.nanos),
            meta.age_at(now@),
        )
}

impl Entry {
    /// The entry for a decision, with a given UUID and time, on a repository of a
    /// given age.
    pub fn of(
        repo: &str,
        meta: &RepoMeta,
        decision: &Decision,
        uuid: &str,
        timestamp: &str,
        age: i64,
    ) -> (e: Entry)
        ensures
            e@ == entry(repo@, meta@, decision@, uuid@, timestamp@, age as int),
    {
        let license = match meta.license_id() {
            Some(id) => Some(id.to_owned()),
            None => None,
        };
        Entry {
            id: "gg-".to_owned().concat(uuid),
            timestamp: timestamp.to_owned(),
            action: decision.action,
            repo: repo.to_owned(),
            license,
            repo_age_days: age,
            stars: meta.stargazers_count,
            reasons: copy_list(&decision.reasons),
            gitgate_version: VERSION,
        }
    }

    /// The entry for a decision, with a fresh identifier and the current time.
    pub fn new(repo: &str, meta: &RepoMeta, decision: &Decision) -> (e: Entry)
        ensures
            records(e@, repo@, meta@, decision@),
    {
        let timestamp = utc_now().moment().to_text();
        let uuid = new_v4();
        let age = meta.age_days();
        Entry::of(repo, meta, decision, uuid.as_str(), timestamp.as_str(), age)
    }
}

} // verus!
