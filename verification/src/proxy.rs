//! The proxy: which repository a request is about, what is known of it, and
//! what is answered.
//!
//! Nothing here does I/O. Whoever serves the connections hands over a request,
//! or the metadata that was asked for, and does what the returned step says.
use crate::audit::{records, Entry};
use crate::clock::ClockReading;
use crate::github::RepoMeta;
use crate::policy::{decision_at, evaluate, Action, Config, Decision};
use crate::text::{chars_of, decimal, find_from, first_index, u64_text};
use vstd::hash_map::StringHashMap;
use vstd::prelude::*;
use vstd::string::*;

verus! {

// ---------------------------------------------------------------------------
// The repository in a path
// ---------------------------------------------------------------------------

/// A text without the slashes that it starts with.
pub open spec fn without_leading_slashes(s: Seq<char>) -> Seq<char>
    decreases s.len(),
{
    if s.len() > 0 && s[0] == '/' {
        without_leading_slashes(s.skip(1))
    } else {
        s
    }
}

/// Whether a text ends in `.git`.
pub open spec fn ends_in_git(s: Seq<char>) -> bool {
    s.len() >= 4 && s.skip(s.len() - 4) == seq!['.', 'g', 'i', 't']
}

/// A text without the `.git`, or several of them, that it ends in.
pub open spec fn without_git(s: Seq<char>) -> Seq<char>
    decreases s.len(),
{
    if ends_in_git(s) {
        without_git(s.take(s.len() - 4))
    } else {
        s
    }
}

/// The owner and the repository that a path is about: the first segment, and
/// the second one without `.git`. Both have to be there.
pub open spec fn path_repo(path: Seq<char>) -> Option<(Seq<char>, Seq<char>)> {
    let segments = without_leading_slashes(path);
    let end = first_index(segments, '/');
    if end >= segments.len() {
        None
    } else {
        let owner = segments.take(end);
        let rest = segments.skip(end + 1);
        let repo = without_git(rest.take(first_index(rest, '/')));
        if owner.len() == 0 || repo.len() == 0 {
            None
        } else {
            Some((owner, repo))
        }
    }
}

/// The end of a segment, without the `.git` that it ends in.
fn end_without_git(chars: &Vec<char>, from: usize, to: usize) -> (end: usize)
    requires
        from <= to <= chars.len(),
    ensures
        from <= end <= to,
        chars@.subrange(from as int, end as int) == without_git(
            chars@.subrange(from as int, to as int),
        ),
{
    let mut end: usize = to;
    while end - from >= 4 && chars[end - 4] == '.' && chars[end - 3] == 'g' && chars[end - 2] == 'i'
        && chars[end - 1] == 't'
        invariant
            from <= end <= to <= chars.len(),
            without_git(chars@.subrange(from as int, end as int)) == without_git(
                chars@.subrange(from as int, to as int),
            ),
        decreases end,
    {
        let ghost s = chars@.subrange(from as int, end as int);
        assert(s.skip(s.len() - 4) =~= seq!['.', 'g', 'i', 't']);
        assert(s.take(s.len() - 4) =~= chars@.subrange(from as int, end - 4));
        end = end - 4;
    }
    proof {
        let s = chars@.subrange(from as int, end as int);
        if ends_in_git(s) {
            let tail = s.skip(s.len() - 4);
            assert(tail[0] == chars@[end - 4] && tail[1] == chars@[end - 3] && tail[2]
                == chars@[end - 2] && tail[3] == chars@[end - 1]);
        }
    }
    end
}

/// Extracts (owner, repo) from a git smart-HTTP path.
/// Handles both `/owner/repo/...` and `/owner/repo.git/...`.
pub fn repo_from_path(path: &str) -> (repo: Option<(String, String)>)
    ensures
        match repo {
            Some((owner, name)) => path_repo(path@) == Some((owner@, name@)),
            None => path_repo(path@) is None,
        },
{
    let chars = chars_of(path);
    let mut start: usize = 0;
    assert(path@.skip(0) =~= path@);
    while start < chars.len() && chars[start] == '/'
        invariant
            start <= chars.len(),
            chars@ == path@,
            without_leading_slashes(path@) == without_leading_slashes(path@.skip(start as int)),
        decreases chars.len() - start,
    {
        assert(path@.skip(start as int).skip(1) =~= path@.skip(start + 1));
        start = start + 1;
    }
    let ghost segments = path@.skip(start as int);
    assert(without_leading_slashes(path@) == segments);
    let owner_end = find_from(&chars, start, '/');
    if owner_end >= chars.len() {
        return None;
    }
    let repo_start: usize = owner_end + 1;
    let repo_end = find_from(&chars, repo_start, '/');
    let ghost rest = segments.skip(owner_end - start + 1);
    assert(rest =~= path@.skip(repo_start as int));
    assert(segments.take(owner_end - start) =~= path@.subrange(start as int, owner_end as int));
    assert(rest.take(repo_end - repo_start) =~= path@.subrange(repo_start as int, repo_end as int));
    let repo_end = end_without_git(&chars, repo_start, repo_end);
    if owner_end == start || repo_end == repo_start {
        return None;
    }
    let owner = path.substring_char(start, owner_end).to_owned();
    let repo = path.substring_char(repo_start, repo_end).to_owned();
    Some((owner, repo))
}

// ---------------------------------------------------------------------------
// Replies
// ---------------------------------------------------------------------------

/// The `Content-Type` of every reply that the proxy itself writes.
pub const CONTENT_TYPE: &'static str = "text/plain";

/// A reply that the proxy itself writes.
#[derive(Debug, PartialEq, Eq)]
pub struct Reply {
    /// The HTTP status.
    pub status: u16,
    pub body: String,
}

/// What a `Reply` says.
pub struct ReplyView {
    pub status: u16,
    pub body: Seq<char>,
}

impl View for Reply {
    type V = ReplyView;

    open spec fn view(&self) -> ReplyView {
        ReplyView { status: self.status, body: self.body@ }
    }
}

/// The reply to a request for a blocked repository.
pub open spec fn refusal(reason: Seq<char>) -> ReplyView {
    ReplyView {
        status: 403,
        body: "GitGate: clone blocked\nReason: "@ + reason
            + "\n\nContact your security team to request an exception.\n"@,
    }
}

/// The reply to a request that is not about a repository.
pub open spec fn unknown_path() -> ReplyView {
    ReplyView { status: 400, body: "GitGate: cannot parse repo from path\n"@ }
}

/// The reply when GitHub does not tell about a repository.
pub open spec fn no_metadata(why: Seq<char>) -> ReplyView {
    ReplyView {
        status: 502,
        body: "GitGate: could not fetch repo metadata — "@ + why + "\n"@,
    }
}

/// A reply with a given status and body.
pub fn plain(status: u16, msg: &str) -> (reply: Reply)
    ensures
        reply@ == (ReplyView { status, body: msg@ }),
{
    Reply { status, body: msg.to_owned() }
}

/// The reply to a request for a blocked repository, with the reason.
pub fn block(reason: &str) -> (reply: Reply)
    ensures
        reply@ == refusal(reason@),
{
    let msg = "GitGate: clone blocked\nReason: ".to_owned().concat(reason).concat(
        "\n\nContact your security team to request an exception.\n",
    );
    plain(403, msg.as_str())
}

/// The reply when the metadata of a repository could not be fetched.
pub fn metadata_unavailable(why: &str) -> (reply: Reply)
    ensures
        reply@ == no_metadata(why@),
{
    let msg = "GitGate: could not fetch repo metadata — ".to_owned().concat(why).concat("\n");
    plain(502, msg.as_str())
}

// ---------------------------------------------------------------------------
// Decisions
// ---------------------------------------------------------------------------

/// A decision that was made before.
#[derive(Debug)]
pub struct CacheEntry {
    pub action: Action,
    pub reason: String,
}

/// What a `CacheEntry` says.
pub struct Verdict {
    pub action: Action,
    pub reason: Seq<char>,
}

impl View for CacheEntry {
    type V = Verdict;

    open spec fn view(&self) -> Verdict {
        Verdict { action: self.action, reason: self.reason@ }
    }
}

/// The decisions that were made so far, by repository.
pub struct DecisionCache {
    entries: StringHashMap<CacheEntry>,
}

impl View for DecisionCache {
    type V = Map<Seq<char>, Verdict>;

    closed spec fn view(&self) -> Map<Seq<char>, Verdict> {
        self.entries@.map_values(|e: CacheEntry| e@)
    }
}

/// What becomes of a request for a repository that was decided on.
#[derive(Debug, PartialEq, Eq)]
pub enum Outcome {
    /// It is sent on to GitHub.
    Forward,
    /// It is answered with this reply; nothing goes to GitHub.
    Reply(Reply),
}

/// What an `Outcome` says.
pub enum OutcomeView {
    Forward,
    Reply(ReplyView),
}

impl View for Outcome {
    type V = OutcomeView;

    open spec fn view(&self) -> OutcomeView {
        match *self {
            Outcome::Forward => OutcomeView::Forward,
            Outcome::Reply(reply) => OutcomeView::Reply(reply@),
        }
    }
}

/// What to do with a request.
#[derive(Debug, PartialEq, Eq)]
pub enum Step {
    /// It is clear what becomes of it.
    Done(Outcome),
    /// Fetch the metadata of this repository first.
    Fetch {
        owner: String,
        repo: String,
        /// What the decision is kept under.
        key: String,
    },
}

/// What a `Step` says.
pub enum StepView {
    Done(OutcomeView),
    Fetch { owner: Seq<char>, repo: Seq<char>, key: Seq<char> },
}

impl View for Step {
    type V = StepView;

    open spec fn view(&self) -> StepView {
        match *self {
            Step::Done(outcome) => StepView::Done(outcome@),
            Step::Fetch { owner, repo, key } => StepView::Fetch {
                owner: owner@,
                repo: repo@,
                key: key@,
            },
        }
    }
}

/// What the decision on a repository is kept under.
pub open spec fn repo_key(owner: Seq<char>, repo: Seq<char>) -> Seq<char> {
    owner + "/"@ + repo
}

/// What follows from a decision.
pub open spec fn outcome(verdict: Verdict) -> OutcomeView {
    match verdict.action {
        Action::Allow => OutcomeView::Forward,
        Action::Block => OutcomeView::Reply(refusal(verdict.reason)),
    }
}

/// What to do with a request for a path, given the decisions made so far.
pub open spec fn request_step(known: Map<Seq<char>, Verdict>, path: Seq<char>) -> StepView {
    match path_repo(path) {
        None => StepView::Done(OutcomeView::Reply(unknown_path())),
        Some((owner, repo)) => {
            let key = repo_key(owner, repo);
            if known.contains_key(key) {
                StepView::Done(outcome(known[key]))
            } else {
                StepView::Fetch { owner, repo, key }
            }
        },
    }
}

/// What follows from a decision.
fn outcome_of(action: Action, reason: &str) -> (result: Outcome)
    ensures
        result@ == outcome(Verdict { action, reason: reason@ }),
{
    match action {
        Action::Allow => Outcome::Forward,
        Action::Block => Outcome::Reply(block(reason)),
    }
}

/// What is logged of a new decision.
pub open spec fn decision_line(key: Seq<char>, verdict: Verdict) -> Seq<char> {
    verdict.action.word() + " "@ + key + " — "@ + verdict.reason
}

/// What is logged where an earlier decision answers a request.
pub open spec fn cached_line(key: Seq<char>, verdict: Verdict) -> Seq<char> {
    match verdict.action {
        Action::Allow => "ALLOW (cached) "@ + key,
        Action::Block => "BLOCK (cached) "@ + key + " — "@ + verdict.reason,
    }
}

/// The line to log for a new decision.
pub fn decision_notice(key: &str, decision: &Decision) -> (line: String)
    ensures
        line@ == decision_line(
            key@,
            (Verdict { action: decision@.action, reason: decision@.reason }),
        ),
{
    decision.action.label().to_owned().concat(" ").concat(key).concat(" — ").concat(
        decision.reason.as_str(),
    )
}

impl DecisionCache {
    /// Nothing has been decided yet.
    pub fn new() -> (cache: DecisionCache)
        ensures
            cache@ == Map::<Seq<char>, Verdict>::empty(),
    {
        let cache = DecisionCache { entries: StringHashMap::new() };
        assert(cache@ =~= Map::<Seq<char>, Verdict>::empty());
        cache
    }

    /// A request for a path has come in.
    pub fn on_request(&self, path: &str) -> (step: Step)
        ensures
            step@ == request_step(self@, path@),
    {
        match repo_from_path(path) {
            None => Step::Done(
                Outcome::Reply(plain(400, "GitGate: cannot parse repo from path\n")),
            ),
            Some((owner, repo)) => {
                let key = owner.clone().concat("/").concat(repo.as_str());
                match self.entries.get(key.as_str()) {
                    Some(entry) => Step::Done(outcome_of(entry.action, entry.reason.as_str())),
                    None => Step::Fetch { owner, repo, key },
                }
            },
        }
    }

    /// The line to log for a request that an earlier decision answers; there is none
    /// for any other request.
    pub fn cached_notice(&self, path: &str) -> (notice: Option<String>)
        ensures
            match path_repo(path@) {
                Some((owner, repo)) => {
                    let key = repo_key(owner, repo);
                    match notice {
                        Some(line) => self@.contains_key(key) && line@ == cached_line(
                            key,
                            self@[key],
                        ),
                        None => !self@.contains_key(key),
                    }
                },
                None => notice is None,
            },
    {
        match repo_from_path(path) {
            None => None,
            Some((owner, repo)) => {
                let key = owner.concat("/").concat(repo.as_str());
                match self.entries.get(key.as_str()) {
                    None => None,
                    Some(entry) => Some(
                        match entry.action {
                            Action::Allow => "ALLOW (cached) ".to_owned().concat(key.as_str()),
                            Action::Block => "BLOCK (cached) ".to_owned().concat(
                                key.as_str(),
                            ).concat(" — ").concat(entry.reason.as_str()),
                        },
                    ),
                }
            },
        }
    }

    /// The metadata of a repository has come in: decides on it, and gives the
    /// entry for the audit log along with the decision.
    pub fn on_metadata(key: &str, config: &Config, meta: &RepoMeta) -> (judged: (Decision, Entry))
        ensures
            exists|now: ClockReading|
                now@.valid() && judged.0@ == #[trigger] decision_at(config@, meta@, now@),
            records(judged.1@, key@, meta@, judged.0@),
    {
        let decision = evaluate(config, meta);
        let entry = Entry::new(key, meta, &decision);
        (decision, entry)
    }

    /// A repository has been decided on: keeps the decision and acts on it.
    pub fn on_decision(&mut self, key: &str, decision: &Decision) -> (result: Outcome)
        ensures
            final(self)@ == old(self)@.insert(
                key@,
                (Verdict { action: decision@.action, reason: decision@.reason }),
            ),
            result@ == outcome(Verdict { action: decision@.action, reason: decision@.reason }),
    {
        let entry = CacheEntry { action: decision.action, reason: decision.reason.clone() };
        self.entries.insert(key.to_owned(), entry);
        assert(self@ =~= old(self)@.insert(
            key@,
            Verdict { action: decision@.action, reason: decision@.reason },
        ));
        outcome_of(decision.action, decision.reason.as_str())
    }
}

// ---------------------------------------------------------------------------
// Starting up
// ---------------------------------------------------------------------------

/// The port that the proxy listens on unless it is told another.
pub const DEFAULT_PORT: u16 = 7443;

/// The `User-Agent` of what the proxy sends on.
pub const USER_AGENT: &'static str = "gitgate-proxy/0.1";

/// The address to listen on, as `host:port`.
pub fn listen_address(bind: &str, port: u16) -> (address: String)
    ensures
        address@ == bind@ + ":"@ + decimal(port as nat),
{
    bind.to_owned().concat(":").concat(u64_text(port as u64).as_str())
}

/// The scheme of the proxy's own URL.
pub open spec fn scheme(tls: bool) -> Seq<char> {
    if tls {
        "https://"@
    } else {
        "http://"@
    }
}

/// What is said when the proxy starts: where it listens and how git is pointed
/// at it.
pub fn listen_notice(tls: bool, address: &str) -> (notice: String)
    ensures
        notice@ == "[gitgate] proxy listening on "@ + scheme(tls) + address@
            + "\n[gitgate] configure git:  git config --global url.\""@ + scheme(tls) + address@
            + "/\".insteadOf \"https://github.com/\"\n"@,
{
    let s = if tls {
        "https://"
    } else {
        "http://"
    };
    "[gitgate] proxy listening on ".to_owned().concat(s).concat(address).concat(
        "\n[gitgate] configure git:  git config --global url.\"",
    ).concat(s).concat(address).concat("/\".insteadOf \"https://github.com/\"\n")
}

} // verus!
