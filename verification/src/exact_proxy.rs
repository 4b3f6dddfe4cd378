//! What the proxy reads in a path, what it does with a request, and what it sends on,
//! spelled out in terms of what it is given.
use crate::forward::{
    header_views, headers_back, headers_on, no_answer, target, unreadable_body, Header, HeaderView,
    MAX_BODY_BYTES,
};
use crate::policy::Action;
use crate::policy_file::{next_lookup, policy_paths, Lookup, LookupView};
use crate::proxy::{
    cached_line, decision_line, ends_in_git, no_metadata, outcome, path_repo, repo_key,
    request_step, scheme, without_git, without_leading_slashes, CacheEntry, Outcome, OutcomeView,
    Reply, ReplyView, Step, StepView, Verdict, CONTENT_TYPE, DEFAULT_PORT,
};
use crate::text::{first_index, lemma_first_index, lemma_first_index_unique};
use vstd::prelude::*;

verus! {

// ---------------------------------------------------------------------------
// Paths
// ---------------------------------------------------------------------------

/// A text so many times over.
pub open spec fn times(text: Seq<char>, n: nat) -> Seq<char>
    decreases n,
{
    if n == 0 {
        Seq::empty()
    } else {
        times(text, (n - 1) as nat) + text
    }
}

/// A path about a repository: slashes, the owner, a slash, the repository, `.git` any
/// number of times, and whatever follows.
pub open spec fn path_about(
    slashes: nat,
    owner: Seq<char>,
    repo: Seq<char>,
    gits: nat,
    rest: Seq<char>,
) -> Seq<char> {
    times("/"@, slashes) + owner + "/"@ + repo + times(".git"@, gits) + rest
}

/// A text ends in `.git` exactly when it is some text with `.git` behind it.
pub proof fn law_git_ending(s: Seq<char>)
    ensures
        ends_in_git(s) <==> exists|t: Seq<char>| s == #[trigger] (t + ".git"@),
{
    reveal_strlit(".git");
    if ends_in_git(s) {
        let t = s.take(s.len() - 4);
        let tail = s.skip(s.len() - 4);
        assert(tail =~= ".git"@);
        assert(s =~= t + ".git"@);
    }
    if exists|t: Seq<char>| s == #[trigger] (t + ".git"@) {
        let t = choose|t: Seq<char>| s == #[trigger] (t + ".git"@);
        assert(s.skip(s.len() - 4) =~= ".git"@);
        assert(".git"@ =~= seq!['.', 'g', 'i', 't']);
    }
}

/// Slashes are slashes.
proof fn lemma_slashes(n: nat)
    ensures
        times("/"@, n).len() == n,
        forall|i: int| 0 <= i < n ==> times("/"@, n)[i] == '/',
    decreases n,
{
    reveal_strlit("/");
    if n > 0 {
        lemma_slashes((n - 1) as nat);
    }
}

/// All slashes at the start of a text go, and nothing else does.
proof fn lemma_slashes_go(n: nat, s: Seq<char>)
    requires
        s.len() == 0 || s[0] != '/',
    ensures
        without_leading_slashes(times("/"@, n) + s) == s,
    decreases n,
{
    let all = times("/"@, n) + s;
    lemma_slashes(n);
    if n == 0 {
        assert(all =~= s);
    } else {
        lemma_slashes((n - 1) as nat);
        lemma_slashes_go((n - 1) as nat, s);
        assert(all[0] == '/');
        assert(all.skip(1) =~= times("/"@, (n - 1) as nat) + s);
    }
}

/// A text is some slashes and what is left without them, which starts with none.
proof fn lemma_slashes_and_rest(s: Seq<char>) -> (n: nat)
    ensures
        s == times("/"@, n) + without_leading_slashes(s),
        without_leading_slashes(s).len() == 0 || without_leading_slashes(s)[0] != '/',
    decreases s.len(),
{
    if s.len() > 0 && s[0] == '/' {
        let n = lemma_slashes_and_rest(s.skip(1));
        let rest = without_leading_slashes(s);
        lemma_slashes(n);
        lemma_slashes((n + 1) as nat);
        assert forall|i: int| 0 <= i < s.len() implies s[i] == (times("/"@, (n + 1) as nat)
            + rest)[i] by {
            if i > 0 {
                assert(s[i] == s.skip(1)[i - 1]);
            }
        }
        assert(s.len() == s.skip(1).len() + 1);
        assert(s =~= times("/"@, (n + 1) as nat) + rest);
        (n + 1) as nat
    } else {
        assert(s =~= times("/"@, 0) + s);
        0
    }
}

/// Every `.git` at the end of a text goes, and nothing else does.
proof fn lemma_gits_go(s: Seq<char>, n: nat)
    requires
        !ends_in_git(s),
    ensures
        without_git(s + times(".git"@, n)) == s,
    decreases n,
{
    let all = s + times(".git"@, n);
    if n == 0 {
        assert(all =~= s);
    } else {
        let shorter = s + times(".git"@, (n - 1) as nat);
        lemma_gits_go(s, (n - 1) as nat);
        assert(all =~= shorter + ".git"@);
        law_git_ending(all);
        reveal_strlit(".git");
        assert(all.take(all.len() - 4) =~= shorter);
    }
}

/// A text is what is left without `.git`, which does not end in it, and `.git` some
/// number of times.
proof fn lemma_gits_and_rest(s: Seq<char>) -> (n: nat)
    ensures
        s == without_git(s) + times(".git"@, n),
        !ends_in_git(without_git(s)),
    decreases s.len(),
{
    if ends_in_git(s) {
        let shorter = s.take(s.len() - 4);
        let n = lemma_gits_and_rest(shorter);
        reveal_strlit(".git");
        assert(s.skip(s.len() - 4) =~= ".git"@);
        assert(s =~= shorter + ".git"@);
        assert(s =~= without_git(s) + times(".git"@, (n + 1) as nat));
        (n + 1) as nat
    } else {
        assert(s =~= s + times(".git"@, 0));
        0
    }
}

/// `.git`, any number of times, has no slash in it.
proof fn lemma_gits_have_no_slash(n: nat)
    ensures
        forall|i: int| 0 <= i < times(".git"@, n).len() ==> times(".git"@, n)[i] != '/',
    decreases n,
{
    reveal_strlit(".git");
    if n > 0 {
        let fewer = times(".git"@, (n - 1) as nat);
        lemma_gits_have_no_slash((n - 1) as nat);
        assert forall|i: int| 0 <= i < times(".git"@, n).len() implies times(".git"@, n)[i]
            != '/' by {
            if i < fewer.len() {
                assert(times(".git"@, n)[i] == fewer[i]);
            } else {
                assert(times(".git"@, n)[i] == ".git"@[i - fewer.len()]);
            }
        }
    }
}

/// Every path of the form `/owner/repo`, `/owner/repo.git` or either of them with a
/// slash and more behind it is about that owner and that repository: to the letter,
/// whatever dots and other characters the names have, as long as the repository does
/// not itself end in `.git`.
pub proof fn law_paths_of_a_repository(
    slashes: nat,
    owner: Seq<char>,
    repo: Seq<char>,
    gits: nat,
    rest: Seq<char>,
)
    requires
        owner.len() > 0,
        !owner.contains('/'),
        repo.len() > 0,
        !repo.contains('/'),
        !(exists|t: Seq<char>| repo == #[trigger] (t + ".git"@)),
        rest.len() > 0 ==> rest[0] == '/',
    ensures
        path_repo(path_about(slashes, owner, repo, gits, rest)) == Some((owner, repo)),
{
    reveal_strlit("/");
    law_git_ending(repo);
    let name = repo + times(".git"@, gits);
    let path = path_about(slashes, owner, repo, gits, rest);
    let segments = owner + "/"@ + name + rest;
    let tail = name + rest;
    assert(owner.contains(owner[0]));
    assert(segments[0] == owner[0]);
    assert(path =~= times("/"@, slashes) + segments);
    lemma_slashes_go(slashes, segments);
    assert forall|i: int| 0 <= i < owner.len() implies segments[i] != '/' by {
        assert(owner.contains(owner[i]));
    }
    lemma_first_index_unique(segments, '/', owner.len() as int);
    assert(segments.take(owner.len() as int) =~= owner);
    assert(segments.skip(owner.len() as int + 1) =~= tail);
    lemma_gits_have_no_slash(gits);
    assert forall|i: int| 0 <= i < name.len() implies tail[i] != '/' by {
        if i < repo.len() {
            assert(repo.contains(repo[i]));
        } else {
            assert(tail[i] == times(".git"@, gits)[i - repo.len()]);
        }
    }
    if rest.len() > 0 {
        assert(tail[name.len() as int] == rest[0]);
    }
    lemma_first_index_unique(tail, '/', name.len() as int);
    assert(tail.take(name.len() as int) =~= name);
    lemma_gits_go(repo, gits);
}

/// No other path is about a repository.
pub proof fn law_no_other_path_is_about_a_repository(path: Seq<char>)
    ensures
        path_repo(path) matches Some((owner, repo)) ==> {
            &&& owner.len() > 0 && !owner.contains('/')
            &&& repo.len() > 0 && !repo.contains('/')
            &&& !(exists|t: Seq<char>| repo == #[trigger] (t + ".git"@))
            &&& exists|slashes: nat, gits: nat, rest: Seq<char>|
                (rest.len() > 0 ==> rest[0] == '/') && path == #[trigger] path_about(
                    slashes,
                    owner,
                    repo,
                    gits,
                    rest,
                )
        },
{
    if path_repo(path) is Some {
        reveal_strlit("/");
        let (owner, repo) = path_repo(path)->0;
        crate::laws::law_names_in_paths(path);
        law_git_ending(repo);
        let slashes = lemma_slashes_and_rest(path);
        let segments = without_leading_slashes(path);
        lemma_first_index(segments, '/');
        let end = first_index(segments, '/');
        let tail = segments.skip(end + 1);
        lemma_first_index(tail, '/');
        let stop = first_index(tail, '/');
        let name = tail.take(stop);
        let rest = tail.skip(stop);
        let gits = lemma_gits_and_rest(name);
        assert(segments =~= owner + "/"@ + tail);
        assert(tail =~= name + rest);
        assert(path =~= path_about(slashes, owner, repo, gits, rest));
    }
}

// ---------------------------------------------------------------------------
// Requests
// ---------------------------------------------------------------------------

/// A request for a repository that was not decided on leads to a look at that very
/// repository, and the decision will be kept under its owner and name. One that was
/// decided on is sent on if it was allowed, and refused with the reason if it was not.
pub proof fn law_requests_are_treated_so(
    known: Map<Seq<char>, Verdict>,
    path: Seq<char>,
    owner: Seq<char>,
    repo: Seq<char>,
)
    requires
        path_repo(path) == Some((owner, repo)),
    ensures
        ({
            let key = owner + "/"@ + repo;
            &&& !known.contains_key(key) ==> request_step(known, path) == (StepView::Fetch {
                owner,
                repo,
                key,
            })
            &&& known.contains_key(key) && known[key].action == Action::Allow ==> request_step(
                known,
                path,
            ) == StepView::Done(OutcomeView::Forward)
            &&& known.contains_key(key) && known[key].action == Action::Block ==> request_step(
                known,
                path,
            ) == StepView::Done(
                OutcomeView::Reply(
                    ReplyView {
                        status: 403,
                        body: "GitGate: clone blocked\nReason: "@ + known[key].reason
                            + "\n\nContact your security team to request an exception.\n"@,
                    },
                ),
            )
        }),
        repo_key(owner, repo) == owner + "/"@ + repo,
{
}

/// A request that is about no repository is refused.
pub proof fn law_other_requests_are_refused(known: Map<Seq<char>, Verdict>, path: Seq<char>)
    requires
        path_repo(path) is None,
    ensures
        request_step(known, path) == StepView::Done(
            OutcomeView::Reply(
                ReplyView { status: 400, body: "GitGate: cannot parse repo from path\n"@ },
            ),
        ),
{
}

/// An allowed repository is sent on for; a blocked one is refused with the reason.
pub proof fn law_verdicts_are_acted_on(verdict: Verdict)
    ensures
        verdict.action == Action::Allow ==> outcome(verdict) == OutcomeView::Forward,
        verdict.action == Action::Block ==> outcome(verdict) == OutcomeView::Reply(
            ReplyView {
                status: 403,
                body: "GitGate: clone blocked\nReason: "@ + verdict.reason
                    + "\n\nContact your security team to request an exception.\n"@,
            },
        ),
{
}

/// What the proxy itself says and logs, with the cause or the reason word for word.
pub proof fn law_what_the_proxy_says(why: Seq<char>, key: Seq<char>)
    ensures
        no_metadata(why) == (ReplyView {
            status: 502,
            body: "GitGate: could not fetch repo metadata — "@ + why + "\n"@,
        }),
        no_answer(why) == (ReplyView {
            status: 502,
            body: "GitGate: upstream error — "@ + why + "\n"@,
        }),
        unreadable_body() == (ReplyView { status: 400, body: "could not read request body\n"@ }),
        cached_line(key, (Verdict { action: Action::Allow, reason: why })) == "ALLOW (cached) "@
            + key,
        cached_line(key, (Verdict { action: Action::Block, reason: why })) == "BLOCK (cached) "@
            + key + " — "@ + why,
        decision_line(key, (Verdict { action: Action::Allow, reason: why })) == "ALLOW"@ + " "@
            + key + " — "@ + why,
        decision_line(key, (Verdict { action: Action::Block, reason: why })) == "BLOCK"@ + " "@
            + key + " — "@ + why,
        Action::Allow.word() == "ALLOW"@,
        Action::Block.word() == "BLOCK"@,
        scheme(true) == "https://"@,
        scheme(false) == "http://"@,
{
}

/// What the proxy goes by where nothing else is said.
pub proof fn law_fixed_values_of_the_proxy()
    ensures
        DEFAULT_PORT == 7443,
        MAX_BODY_BYTES == 8 * 1024 * 1024,
        CONTENT_TYPE@ == "text/plain"@,
        crate::proxy::USER_AGENT@ == "gitgate-proxy/0.1"@,
        crate::github::USER_AGENT@ == "gitgate/0.1"@,
        crate::audit::VERSION@ == "0.1.0"@,
{
}

/// What the proxy's replies, outcomes, steps and kept decisions say is what stands in
/// them.
pub proof fn law_the_whole_answer_counts(
    reply: Reply,
    kept: CacheEntry,
    done: Outcome,
    owner: String,
    repo: String,
    key: String,
)
    ensures
        reply@.status == reply.status,
        reply@.body == reply.body@,
        kept@.action == kept.action,
        kept@.reason == kept.reason@,
        Outcome::Forward@ == OutcomeView::Forward,
        Outcome::Reply(reply)@ == OutcomeView::Reply(reply@),
        Step::Done(done)@ == StepView::Done(done@),
        (Step::Fetch { owner, repo, key })@ == (StepView::Fetch {
            owner: owner@,
            repo: repo@,
            key: key@,
        }),
{
}

// ---------------------------------------------------------------------------
// Forwarding
// ---------------------------------------------------------------------------

/// What a list of headers says is the name and the value of each of them, in order.
pub proof fn law_every_header_counts(headers: Seq<Header>, i: int)
    ensures
        header_views(headers).len() == headers.len(),
        0 <= i < headers.len() ==> header_views(headers)[i].name == headers[i].name@
            && header_views(headers)[i].value == headers[i].value@,
{
}

/// A header of a request goes on to GitHub, with its name and value and in its place,
/// unless it is one of these nine.
pub proof fn law_headers_that_go_on(headers: Seq<HeaderView>, h: HeaderView)
    ensures
        headers_on(Seq::empty()) == Seq::<HeaderView>::empty(),
        headers_on(headers.push(h)) == if h.name == "connection"@ || h.name == "keep-alive"@
            || h.name == "proxy-authenticate"@ || h.name == "proxy-authorization"@ || h.name
            == "te"@ || h.name == "trailers"@ || h.name == "transfer-encoding"@ || h.name
            == "upgrade"@ || h.name == "host"@ {
            headers_on(headers)
        } else {
            headers_on(headers).push(h)
        },
{
    reveal(Seq::filter);
    assert(headers.push(h).drop_last() =~= headers);
}

/// Whether a header of a request goes on to GitHub depends on its name alone: it does
/// unless it is one of these nine.
pub proof fn law_which_headers_go_on(headers: Seq<HeaderView>, i: int)
    requires
        0 <= i < headers.len(),
    ensures
        headers_on(headers).contains(headers[i]) <==> {
            let name = headers[i].name;
            &&& name != "connection"@ && name != "keep-alive"@ && name != "proxy-authenticate"@
            &&& name != "proxy-authorization"@ && name != "te"@ && name != "trailers"@
            &&& name != "transfer-encoding"@ && name != "upgrade"@ && name != "host"@
        },
{
    crate::laws::law_connection_headers_stay_here(headers);
    if headers_on(headers).contains(headers[i]) {
        let k = choose|k: int|
            0 <= k < headers_on(headers).len() && headers_on(headers)[k] == headers[i];
        assert(crate::forward::goes_on(headers_on(headers)[k]));
    }
}

/// A header of an answer comes back to the client, with its name and value and in its
/// place, unless it is one of these eight.
pub proof fn law_headers_that_come_back(headers: Seq<HeaderView>, h: HeaderView)
    ensures
        headers_back(Seq::empty()) == Seq::<HeaderView>::empty(),
        headers_back(headers.push(h)) == if h.name == "connection"@ || h.name == "keep-alive"@
            || h.name == "proxy-authenticate"@ || h.name == "proxy-authorization"@ || h.name
            == "te"@ || h.name == "trailers"@ || h.name == "transfer-encoding"@ || h.name
            == "upgrade"@ {
            headers_back(headers)
        } else {
            headers_back(headers).push(h)
        },
{
    reveal(Seq::filter);
    assert(headers.push(h).drop_last() =~= headers);
}

/// Whether a header of an answer comes back to the client depends on its name alone:
/// it does unless it is one of these eight.
pub proof fn law_which_headers_come_back(headers: Seq<HeaderView>, i: int)
    requires
        0 <= i < headers.len(),
    ensures
        headers_back(headers).contains(headers[i]) <==> {
            let name = headers[i].name;
            &&& name != "connection"@ && name != "keep-alive"@ && name != "proxy-authenticate"@
            &&& name != "proxy-authorization"@ && name != "te"@ && name != "trailers"@
            &&& name != "transfer-encoding"@ && name != "upgrade"@
        },
{
    crate::laws::law_upstream_connection_headers_stay_there(headers);
    if headers_back(headers).contains(headers[i]) {
        let k = choose|k: int|
            0 <= k < headers_back(headers).len() && headers_back(headers)[k] == headers[i];
        assert(crate::forward::comes_back(headers_back(headers)[k]));
    }
}

/// A request goes to GitHub under the path and the query that it came with, or to the
/// root where it came with none.
pub proof fn law_requests_keep_their_path(path_and_query: Seq<char>)
    ensures
        target(Some(path_and_query)) == "https://github.com"@ + path_and_query,
        target(None) == "https://github.com/"@,
{
    reveal_strlit("https://github.com");
    reveal_strlit("/");
    reveal_strlit("https://github.com/");
    assert("https://github.com"@ + "/"@ =~= "https://github.com/"@);
}

// ---------------------------------------------------------------------------
// The policy file
// ---------------------------------------------------------------------------

/// Without a name in the environment, or with an empty one, the policy is looked for
/// in the place for the whole system and then in the current directory.
pub proof fn law_places_of_the_policy(variable: Option<Seq<char>>)
    requires
        variable matches Some(path) ==> path.len() == 0,
    ensures
        policy_paths(variable, false) == seq![
            "/etc/gitgate/policy.yaml"@,
            "gitgate-policy.yaml"@,
            "gitgate-policy.yml"@,
        ],
        policy_paths(variable, true) == seq![
            "C:\\ProgramData\\gitgate\\policy.yaml"@,
            "gitgate-policy.yaml"@,
            "gitgate-policy.yml"@,
        ],
{
}

/// Of the files asked about, the first one that exists is read. Where none of them
/// does, the next one is asked about, and the search ends with the last.
pub proof fn law_first_answer_decides(paths: Seq<Seq<char>>, exists: Seq<bool>, k: int)
    requires
        0 <= k <= exists.len(),
        forall|j: int| 0 <= j < k ==> !#[trigger] exists[j],
    ensures
        k < exists.len() && exists[k] && k < paths.len() ==> next_lookup(paths, exists) == Some(
            LookupView::Read(paths[k]),
        ),
        k == exists.len() && k < paths.len() ==> next_lookup(paths, exists) == Some(
            LookupView::Probe(paths[k]),
        ),
        (k == exists.len() || exists[k]) && k >= paths.len() ==> next_lookup(paths, exists) is None,
{
    crate::policy_file::lemma_first_existing(exists);
    let i = crate::policy_file::first_existing(exists);
    if i < k {
        assert(exists[i]);
    }
    if k < i {
        assert(!exists[k]);
    }
}

/// A step of the search says which file to ask about or to read.
pub proof fn law_the_whole_step_counts(path: String)
    ensures
        Lookup::Probe(path)@ == LookupView::Probe(path@),
        Lookup::Read(path)@ == LookupView::Read(path@),
{
}

} // verus!
