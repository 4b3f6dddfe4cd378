//! Repository metadata as GitHub's API gives it, and how it is asked for.
use crate::clock::{days_between, parsed_moment, utc_now, ClockReading, Timestamp};
use crate::text::optional_text;
use vstd::prelude::*;
use vstd::string::*;

verus! {

/// The `User-Agent` of a metadata request.
pub const USER_AGENT: &'static str = "gitgate/0.1";

/// What the policy knows of a repository.
#[derive(Debug)]
pub struct RepoMeta {
    pub license: Option<License>,
    pub created_at: String,
    pub stargazers_count: u64,
    pub owner: Owner,
    /// The repository as `owner/repo`.
    pub full_name: String,
}

/// The license that GitHub found in a repository.
#[derive(Debug)]
pub struct License {
    pub spdx_id: Option<String>,
}

/// The account that a repository belongs to.
#[derive(Debug)]
pub struct Owner {
    pub login: String,
}

/// What a `RepoMeta` says.
pub struct RepoView {
    pub license_id: Option<Seq<char>>,
    pub created_at: Seq<char>,
    pub stars: nat,
    pub owner: Seq<char>,
    pub full_name: Seq<char>,
}

impl View for RepoMeta {
    type V = RepoView;

    open spec fn view(&self) -> RepoView {
        RepoView {
            license_id: match self.license {
                Some(license) => optional_text(license.spdx_id),
                None => None,
            },
            created_at: self.created_at@,
            stars: self.stargazers_count as nat,
            owner: self.owner.login@,
            full_name: self.full_name@,
        }
    }
}

/// The moment to count an age from: the one of creation, or the start of 1970
/// where that is not known.
pub open spec fn known_or_epoch(created: Option<Timestamp>) -> Timestamp {
    match created {
        Some(moment) => moment,
        None => Timestamp::spec_epoch(),
    }
}

impl RepoView {
    /// When the repository was created. A creation date that cannot be read
    /// counts as the start of 1970.
    pub open spec fn created(self) -> Timestamp {
        known_or_epoch(parsed_moment(self.created_at))
    }

    /// The age in whole days at a given moment.
    pub open spec fn age_at(self, now: Timestamp) -> int {
        days_between(now, self.created())
    }
}

/// The age in whole days of what was created at a given moment, or at one that
/// is not known.
pub fn days_of_age(created: Option<Timestamp>, now: Timestamp) -> (days: i64)
    requires
        now.valid(),
        created matches Some(moment) ==> moment.valid(),
    ensures
        days == days_between(now, known_or_epoch(created)),
{
    match created {
        Some(moment) => now.days_since(moment),
        None => now.days_since(Timestamp::epoch()),
    }
}

impl RepoMeta {
    /// The SPDX identifier of the license, where GitHub names one.
    pub fn license_id(&self) -> (id: Option<&str>)
        ensures
            id is Some <==> self@.license_id is Some,
            id matches Some(text) ==> self@.license_id == Some(text@),
    {
        match &self.license {
            Some(license) => match &license.spdx_id {
                Some(id) => Some(id.as_str()),
                None => None,
            },
            None => None,
        }
    }

    /// The age of the repository in whole days at a given moment.
    pub fn age_days_at(&self, now: Timestamp) -> (days: i64)
        requires
            now.valid(),
        ensures
            days == self@.age_at(now),
    {
        days_of_age(Timestamp::parse(self.created_at.as_str()), now)
    }

    /// The age of the repository in whole days, by the system clock.
    pub fn age_days(&self) -> (days: i64)
        ensures
            exists|now: ClockReading| now@.valid() && days == #[trigger] self@.age_at(now@),
    {
        let now = utc_now();
        self.age_days_at(now.moment())
    }
}

/// A request for the metadata of one repository.
#[derive(Debug)]
pub struct MetaRequest {
    pub url: String,
    pub user_agent: String,
    /// The token to authenticate with, if there is one.
    pub bearer: Option<String>,
}

/// Where GitHub's API keeps the metadata of a repository.
pub open spec fn api_url(owner: Seq<char>, repo: Seq<char>) -> Seq<char> {
    "https://api.github.com/repos/"@ + owner + "/"@ + repo
}

impl MetaRequest {
    /// The request for the metadata of `owner/repo`, authenticated where there
    /// is a token.
    pub fn new(owner: &str, repo: &str, token: Option<&str>) -> (request: MetaRequest)
        ensures
            request.url@ == api_url(owner@, repo@),
            request.user_agent@ == "gitgate/0.1"@,
            token matches Some(t) ==> optional_text(request.bearer) == Some(t@),
            token is None ==> request.bearer is None,
    {
        let url = "https://api.github.com/repos/".to_owned().concat(owner).concat("/").concat(repo);
        let bearer = match token {
            Some(t) => Some(t.to_owned()),
            None => None,
        };
        MetaRequest { url, user_agent: USER_AGENT.to_owned(), bearer }
    }
}

/// Whether an HTTP status reports success.
pub fn is_success(status: u16) -> (success: bool)
    ensures
        success == (200 <= status < 300),
{
    200 <= status && status < 300
}

/// What is reported of a metadata request that GitHub refused: the status line
/// and the body, or nothing in its place where it could not be read.
pub open spec fn refusal_text(status_line: Seq<char>, body: Option<Seq<char>>) -> Seq<char> {
    "GitHub API returned "@ + status_line + ": "@ + (match body {
        Some(text) => text,
        None => Seq::empty(),
    })
}

/// Says that GitHub refused a metadata request.
pub fn refusal_message(status_line: &str, body: Option<String>) -> (message: String)
    ensures
        message@ == refusal_text(status_line@, optional_text(body)),
{
    let body = match body {
        Some(text) => text,
        None => String::new(),
    };
    "GitHub API returned ".to_owned().concat(status_line).concat(": ").concat(body.as_str())
}

/// Whether GitHub refused a metadata request: the message to report if it did,
/// and nothing if the body is the metadata.
pub fn refused(status: u16, status_line: &str, body: Option<String>) -> (message: Option<String>)
    ensures
        message is None <==> 200 <= status < 300,
        message matches Some(text) ==> text@ == refusal_text(status_line@, optional_text(body)),
{
    if is_success(status) {
        None
    } else {
        Some(refusal_message(status_line, body))
    }
}

/// The GitHub token out of the environment; an empty one counts as none.
pub fn token_from(variable: Option<String>) -> (token: Option<String>)
    ensures
        token == (match variable {
            Some(t) => if t@.len() == 0 { None } else { Some(t) },
            None => None,
        }),
{
    match variable {
        Some(t) => if t.as_str().is_empty() {
            None
        } else {
            Some(t)
        },
        None => None,
    }
}

} // verus!
