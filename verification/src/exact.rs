//! What each operation gives, spelled out in terms of what it is given.
//!
//! Where `laws` says what the operations mean together, the statements here fix each
//! of them: every entry of a list counts, every character of a text, and no other
//! answer will do.
use crate::clock::{days_between, parsed_moment, rfc3339_moment, Timestamp};
use crate::github::{RepoMeta, RepoView};
use crate::laws::{
    is_exception, lemma_policy_lists, lemma_same_but_for_case, license_acceptable, lists_license,
    lists_name, owner_allowed, owner_blocked, same_but_for_case, same_letter,
};
use crate::policy::{
    ascii_lower, ascii_upper, decision, decision_at, folded, lowercase, unicode_lowercase,
    unicode_uppercase, uppercase, Action, Config, ConfigView, Decision, FoldedNames,
    FoldedView, NoLicenseAction,
};
use crate::text::{decimal, first_index, joined, optional_text, signed_decimal, texts};
use vstd::prelude::*;
use vstd::utf8::is_ascii_chars;

verus! {

// ---------------------------------------------------------------------------
// Texts
// ---------------------------------------------------------------------------

/// What a list of strings says is what each of its strings says, in order.
pub proof fn law_every_string_counts(list: Seq<String>, i: int, s: Option<String>)
    ensures
        texts(list).len() == list.len(),
        0 <= i < list.len() ==> texts(list)[i] == list[i]@,
        s matches Some(t) ==> optional_text(s) == Some(t@),
        s is None ==> optional_text(s) is None,
{
}

/// The number that a text of decimal digits denotes.
pub open spec fn number_of(digits: Seq<char>) -> int
    decreases digits.len(),
{
    if digits.len() == 0 {
        0
    } else {
        10 * number_of(digits.drop_last()) + (digits.last() as int - '0' as int)
    }
}

/// A number is written with the digits that denote it and no leading zero; a negative
/// one with a minus sign in front.
pub proof fn law_decimal_denotes_the_number(n: nat)
    ensures
        number_of(decimal(n)) == n,
        forall|i: int| 0 <= i < decimal(n).len() ==> '0' <= #[trigger] decimal(n)[i] <= '9',
        decimal(n).len() > 0,
        n > 0 ==> decimal(n)[0] != '0',
        signed_decimal(n as int) == decimal(n),
        n > 0 ==> signed_decimal(-(n as int)) == seq!['-'] + decimal(n),
    decreases n,
{
    if n >= 10 {
        law_decimal_denotes_the_number(n / 10);
        let high = decimal(n / 10);
        assert(decimal(n).drop_last() =~= high);
        assert(decimal(n)[0] == high[0]);
        assert forall|i: int| 0 <= i < decimal(n).len() implies '0' <= #[trigger] decimal(
            n,
        )[i] <= '9' by {
            if i < high.len() {
                assert(decimal(n)[i] == high[i]);
            }
        }
    } else {
        assert(decimal(n).drop_last() =~= Seq::<char>::empty());
        assert(number_of(Seq::<char>::empty()) == 0);
    }
    assert(decimal(n).last() as int == n % 10 + '0' as int);
}

/// Joining puts the separator in front of each part but the first, and leaves nothing
/// out.
pub proof fn law_joining_appends_each_part(
    parts: Seq<Seq<char>>,
    part: Seq<char>,
    sep: Seq<char>,
)
    ensures
        joined(Seq::empty(), sep) == Seq::<char>::empty(),
        joined(seq![part], sep) == part,
        parts.len() > 0 ==> joined(parts.push(part), sep) == joined(parts, sep) + sep + part,
    decreases parts.len(),
{
    if parts.len() == 1 {
        assert(parts.push(part).skip(1) =~= seq![part]);
        assert(joined(parts.push(part).skip(1), sep) == part);
    } else if parts.len() > 1 {
        law_joining_appends_each_part(parts.skip(1), part, sep);
        assert(parts.push(part).skip(1) =~= parts.skip(1).push(part));
        let rest = joined(parts.skip(1), sep);
        assert(parts[0] + sep + (rest + sep + part) =~= parts[0] + sep + rest + sep + part);
    }
}

/// The first index of a character holds it, and it is in no place before; where the
/// character is not in the text, it is the text's length.
pub proof fn law_first_index_is_the_first(s: Seq<char>, c: char)
    ensures
        0 <= first_index(s, c) <= s.len(),
        forall|i: int| 0 <= i < first_index(s, c) ==> s[i] != c,
        s.contains(c) <==> first_index(s, c) < s.len(),
        first_index(s, c) < s.len() ==> s[first_index(s, c)] == c,
{
    crate::text::lemma_first_index(s, c);
    if s.contains(c) {
        let i = choose|i: int| 0 <= i < s.len() && s[i] == c;
        assert(s[i] == c);
    }
}

// ---------------------------------------------------------------------------
// What is read out of a policy and a repository
// ---------------------------------------------------------------------------

/// What a policy says is all that stands in it: every entry of every list, both
/// minima, and what to do without a license.
pub proof fn law_the_whole_policy_counts(config: Config)
    ensures
        config@.exceptions == config.exceptions@.map_values(|s: String| s@),
        config@.org_blocklist == config.org_blocklist@.map_values(|s: String| s@),
        config@.org_allowlist == config.org_allowlist@.map_values(|s: String| s@),
        config@.license_blocklist == config.license_blocklist@.map_values(|s: String| s@),
        config@.license_allowlist == config.license_allowlist@.map_values(|s: String| s@),
        config@.no_license_action == config.no_license_action,
        config@.min_repo_age_days == config.min_repo_age_days,
        config@.min_star_count == config.min_star_count,
        config@.audit_log_path == config.audit_log_path@,
{
}

/// What the policy knows of a repository is what GitHub said of it. A license without
/// an identifier is none.
pub proof fn law_the_whole_repository_counts(meta: RepoMeta)
    ensures
        meta@.owner == meta.owner.login@,
        meta@.full_name == meta.full_name@,
        meta@.stars == meta.stargazers_count,
        meta@.created_at == meta.created_at@,
        meta.license is None ==> meta@.license_id is None,
        meta.license matches Some(license) ==> {
            &&& license.spdx_id matches Some(id) ==> meta@.license_id == Some(id@)
            &&& license.spdx_id is None ==> meta@.license_id is None
        },
{
}

/// What a decision says is its action, its reason and every one of its reasons.
pub proof fn law_the_whole_decision_counts(d: Decision)
    ensures
        d@.action == d.action,
        d@.reason == d.reason@,
        d@.reasons == d.reasons@.map_values(|s: String| s@),
{
}

// ---------------------------------------------------------------------------
// Names without regard to case
// ---------------------------------------------------------------------------

/// The two forms of an ASCII name are the name itself but for case, without a capital
/// letter or without a small one. Two ASCII names have the same forms exactly when
/// they are the same but for case.
pub proof fn law_forms_of_ascii_names(a: Seq<char>, b: Seq<char>)
    requires
        is_ascii_chars(a),
        is_ascii_chars(b),
    ensures
        same_but_for_case(a, lowercase(a)),
        same_but_for_case(a, uppercase(a)),
        forall|i: int| 0 <= i < a.len() ==> !('A' <= #[trigger] lowercase(a)[i] <= 'Z'),
        forall|i: int| 0 <= i < a.len() ==> !('a' <= #[trigger] uppercase(a)[i] <= 'z'),
        lowercase(a) == lowercase(b) <==> same_but_for_case(a, b),
        uppercase(a) == uppercase(b) <==> same_but_for_case(a, b),
{
    assert forall|i: int| 0 <= i < a.len() implies same_letter(#[trigger] a[i], lowercase(a)[i]) by {
    }
    assert forall|i: int| 0 <= i < a.len() implies same_letter(#[trigger] a[i], uppercase(a)[i]) by {
    }
    if same_but_for_case(a, b) {
        lemma_same_but_for_case(a, b);
    }
    if lowercase(a) == lowercase(b) {
        assert(lowercase(a).len() == lowercase(b).len());
        assert forall|i: int| 0 <= i < a.len() implies same_letter(#[trigger] a[i], b[i]) by {
            assert(lowercase(a)[i] == lowercase(b)[i]);
        }
    }
    if uppercase(a) == uppercase(b) {
        assert(uppercase(a).len() == uppercase(b).len());
        assert forall|i: int| 0 <= i < a.len() implies same_letter(#[trigger] a[i], b[i]) by {
            assert(uppercase(a)[i] == uppercase(b)[i]);
        }
    }
}

/// The forms of a name that is not ASCII are those that std gives, of the name with
/// its ASCII letters in that case already.
pub proof fn law_forms_of_other_names(a: Seq<char>, b: Seq<char>)
    requires
        !is_ascii_chars(a),
        same_but_for_case(a, b),
    ensures
        (forall|i: int| 0 <= i < b.len() ==> !('A' <= #[trigger] b[i] <= 'Z')) ==> lowercase(a)
            == unicode_lowercase(b),
        (forall|i: int| 0 <= i < b.len() ==> !('a' <= #[trigger] b[i] <= 'z')) ==> uppercase(a)
            == unicode_uppercase(b),
{
    lemma_same_but_for_case(a, b);
    if forall|i: int| 0 <= i < b.len() ==> !('A' <= #[trigger] b[i] <= 'Z') {
        assert forall|i: int| 0 <= i < b.len() implies ascii_lower(b[i]) == b[i] by {
        }
        assert(b.map_values(|c: char| ascii_lower(c)) =~= b);
    }
    if forall|i: int| 0 <= i < b.len() ==> !('a' <= #[trigger] b[i] <= 'z') {
        assert forall|i: int| 0 <= i < b.len() implies ascii_upper(b[i]) == b[i] by {
        }
        assert(b.map_values(|c: char| ascii_upper(c)) =~= b);
    }
}

/// The names that a decision compares are those of the repository and every entry of
/// every list, each in one case and in its place.
pub proof fn law_every_name_is_compared(policy: ConfigView, repo: RepoView, i: int)
    ensures
        ({
            let names = folded(policy, repo);
            &&& names.repo == lowercase(repo.full_name)
            &&& names.owner == lowercase(repo.owner)
            &&& repo.license_id matches Some(id) ==> names.license == Some(uppercase(id))
            &&& repo.license_id is None ==> names.license is None
            &&& names.exceptions.len() == policy.exceptions.len()
            &&& names.org_blocklist.len() == policy.org_blocklist.len()
            &&& names.org_allowlist.len() == policy.org_allowlist.len()
            &&& names.license_blocklist.len() == policy.license_blocklist.len()
            &&& names.license_allowlist.len() == policy.license_allowlist.len()
            &&& 0 <= i < policy.exceptions.len() ==> names.exceptions[i] == lowercase(
                policy.exceptions[i],
            )
            &&& 0 <= i < policy.org_blocklist.len() ==> names.org_blocklist[i] == lowercase(
                policy.org_blocklist[i],
            )
            &&& 0 <= i < policy.org_allowlist.len() ==> names.org_allowlist[i] == lowercase(
                policy.org_allowlist[i],
            )
            &&& 0 <= i < policy.license_blocklist.len() ==> names.license_blocklist[i]
                == uppercase(policy.license_blocklist[i])
            &&& 0 <= i < policy.license_allowlist.len() ==> names.license_allowlist[i]
                == uppercase(policy.license_allowlist[i])
        }),
{
}

/// What the compared names say is what stands in them.
pub proof fn law_all_the_names_count(names: FoldedNames)
    ensures
        names@.repo == names.repo@,
        names@.owner == names.owner@,
        names.license matches Some(id) ==> names@.license == Some(id@),
        names.license is None ==> names@.license is None,
        names@.exceptions == names.exceptions@.map_values(|s: String| s@),
        names@.org_blocklist == names.org_blocklist@.map_values(|s: String| s@),
        names@.org_allowlist == names.org_allowlist@.map_values(|s: String| s@),
        names@.license_blocklist == names.license_blocklist@.map_values(|s: String| s@),
        names@.license_allowlist == names.license_allowlist@.map_values(|s: String| s@),
{
}

// ---------------------------------------------------------------------------
// Decisions
// ---------------------------------------------------------------------------

/// Every entry of the exception list lets its repository through, at whatever place it
/// stands and however it is cased.
pub proof fn law_every_exception_counts(
    policy: ConfigView,
    repo: RepoView,
    now: Timestamp,
    i: int,
)
    requires
        0 <= i < policy.exceptions.len(),
        same_but_for_case(repo.full_name, policy.exceptions[i]),
    ensures
        decision_at(policy, repo, now).action == Action::Allow,
        decision_at(policy, repo, now).reasons == seq!["exception"@],
{
    lemma_same_but_for_case(repo.full_name, policy.exceptions[i]);
    crate::laws::law_exceptions_bypass_all_checks(policy, repo, now);
}

/// Every entry of the list of blocked owners blocks what that owner has, at whatever
/// place it stands and however it is cased, unless the repository is an exception.
pub proof fn law_every_blocked_owner_counts(
    policy: ConfigView,
    repo: RepoView,
    now: Timestamp,
    i: int,
)
    requires
        0 <= i < policy.org_blocklist.len(),
        same_but_for_case(repo.owner, policy.org_blocklist[i]),
        forall|j: int|
            0 <= j < policy.exceptions.len() ==> lowercase(#[trigger] policy.exceptions[j])
                != lowercase(repo.full_name),
    ensures
        decision_at(policy, repo, now).action == Action::Block,
        decision_at(policy, repo, now).reasons == seq!["org_blocklisted"@],
{
    lemma_same_but_for_case(repo.owner, policy.org_blocklist[i]);
    assert(lists_name(policy.org_blocklist, repo.owner));
    assert(!is_exception(policy, repo));
    crate::laws::law_blocked_owners_are_blocked(policy, repo, now);
}

/// Every entry of the list of allowed owners lets through what that owner has, at
/// whatever place it stands and however it is cased, unless the owner is blocked too.
pub proof fn law_every_allowed_owner_counts(
    policy: ConfigView,
    repo: RepoView,
    now: Timestamp,
    i: int,
)
    requires
        0 <= i < policy.org_allowlist.len(),
        same_but_for_case(repo.owner, policy.org_allowlist[i]),
        forall|j: int|
            0 <= j < policy.org_blocklist.len() ==> lowercase(#[trigger] policy.org_blocklist[j])
                != lowercase(repo.owner),
    ensures
        decision_at(policy, repo, now).action == Action::Allow,
{
    lemma_same_but_for_case(repo.owner, policy.org_allowlist[i]);
    assert(lists_name(policy.org_allowlist, repo.owner));
    assert(!owner_blocked(policy, repo));
    crate::laws::law_allowed_owners_are_allowed(policy, repo, now);
}

/// Every entry of the list of blocked licenses blocks, at whatever place it stands and
/// however it is cased, unless the repository is an exception or its owner allowed.
pub proof fn law_every_blocked_license_counts(
    policy: ConfigView,
    repo: RepoView,
    now: Timestamp,
    i: int,
)
    requires
        0 <= i < policy.license_blocklist.len(),
        repo.license_id matches Some(id) && same_but_for_case(id, policy.license_blocklist[i]),
        forall|j: int|
            0 <= j < policy.exceptions.len() ==> lowercase(#[trigger] policy.exceptions[j])
                != lowercase(repo.full_name),
        forall|j: int|
            0 <= j < policy.org_allowlist.len() ==> lowercase(#[trigger] policy.org_allowlist[j])
                != lowercase(repo.owner),
    ensures
        decision_at(policy, repo, now).action == Action::Block,
{
    lemma_same_but_for_case(repo.license_id->0, policy.license_blocklist[i]);
    assert(lists_license(policy.license_blocklist, repo.license_id->0));
    assert(!is_exception(policy, repo));
    assert(!owner_allowed(policy, repo));
    crate::laws::law_license_blocklist_wins(policy, repo, now);
}

/// Every entry of the list of allowed licenses is enough for a repository that is
/// neither blocked nor too young and has the stars. A license that no entry names is
/// not allowed where the list has any entry at all.
pub proof fn law_every_allowed_license_counts(
    policy: ConfigView,
    repo: RepoView,
    now: Timestamp,
    i: int,
)
    requires
        repo.license_id is Some,
        repo.license_id->0 != "NOASSERTION"@,
        repo.license_id->0 != "NONE"@,
        repo.age_at(now) >= policy.min_repo_age_days,
        repo.stars >= policy.min_star_count,
        forall|j: int|
            0 <= j < policy.org_blocklist.len() ==> lowercase(#[trigger] policy.org_blocklist[j])
                != lowercase(repo.owner),
        forall|j: int|
            0 <= j < policy.license_blocklist.len() ==> uppercase(
                #[trigger] policy.license_blocklist[j],
            ) != uppercase(repo.license_id->0),
    ensures
        0 <= i < policy.license_allowlist.len() && same_but_for_case(
            repo.license_id->0,
            policy.license_allowlist[i],
        ) ==> decision_at(policy, repo, now).action == Action::Allow,
        policy.license_allowlist.len() == 0 ==> decision_at(policy, repo, now).action
            == Action::Allow,
        policy.license_allowlist.len() > 0 && (forall|j: int|
            0 <= j < policy.license_allowlist.len() ==> uppercase(
                #[trigger] policy.license_allowlist[j],
            ) != uppercase(repo.license_id->0)) && !is_exception(policy, repo) && !owner_allowed(
            policy,
            repo,
        ) ==> decision_at(policy, repo, now).action == Action::Block,
{
    let id = repo.license_id->0;
    assert(!owner_blocked(policy, repo));
    assert(!lists_license(policy.license_blocklist, id));
    if 0 <= i < policy.license_allowlist.len() && same_but_for_case(
        id,
        policy.license_allowlist[i],
    ) {
        lemma_same_but_for_case(id, policy.license_allowlist[i]);
        assert(lists_license(policy.license_allowlist, id));
    }
    if is_exception(policy, repo) {
        crate::laws::law_exceptions_bypass_all_checks(policy, repo, now);
    } else if owner_allowed(policy, repo) {
        crate::laws::law_allowed_owners_are_allowed(policy, repo, now);
    } else {
        crate::laws::law_others_pass_every_check(policy, repo, now);
    }
}

/// Under whatever names in one case, a repository is allowed exactly when it is an
/// exception, or its owner is not blocked and is allowed or every check passes.
pub proof fn law_what_is_allowed(
    policy: ConfigView,
    repo: RepoView,
    names: FoldedView,
    age: int,
)
    ensures
        decision(policy, repo, names, age).action == Action::Allow <==> {
            ||| names.exceptions.contains(names.repo)
            ||| !names.org_blocklist.contains(names.owner) && names.org_allowlist.contains(
                names.owner,
            )
            ||| {
                &&& !names.org_blocklist.contains(names.owner)
                &&& age >= policy.min_repo_age_days
                &&& repo.stars >= policy.min_star_count
                &&& match repo.license_id {
                    None => policy.no_license_action == NoLicenseAction::Allow,
                    Some(id) => {
                        &&& id != "NOASSERTION"@ && id != "NONE"@
                        &&& !(names.license is Some && names.license_blocklist.contains(
                            names.license->0,
                        ))
                        &&& names.license_allowlist.len() == 0 || (names.license is Some
                            && names.license_allowlist.contains(names.license->0))
                    },
                }
            }
        },
{
}

/// What is held against the license of a repository that the lists of owners and
/// exceptions say nothing of.
pub open spec fn license_finding(policy: ConfigView, id: Option<Seq<char>>) -> Seq<char> {
    match id {
        None => "no_license"@,
        Some(id) => if id == "NOASSERTION"@ || id == "NONE"@ {
            "license_unrecognized"@
        } else if lists_license(policy.license_blocklist, id) {
            "license_blocklisted:"@ + id
        } else {
            "license_not_allowed:"@ + id
        },
    }
}

/// The reasons for blocking a repository that the lists of owners and exceptions say
/// nothing of are those that apply, each once: the license first, then the age, then
/// the stars. People are told the first of them. An allowed one has its license for a
/// reason.
pub proof fn law_reasons_are_those_that_apply(policy: ConfigView, repo: RepoView, now: Timestamp)
    requires
        !is_exception(policy, repo),
        !owner_blocked(policy, repo),
        !owner_allowed(policy, repo),
    ensures
        ({
            let d = decision_at(policy, repo, now);
            let age = repo.age_at(now);
            let bad_license = !license_acceptable(policy, repo);
            let too_young = age < policy.min_repo_age_days;
            let few_stars = repo.stars < policy.min_star_count;
            let count: int = (if bad_license { 1int } else { 0 }) + (if too_young { 1int } else { 0 })
                + (if few_stars { 1int } else { 0 });
            &&& count == 0 ==> {
                &&& d.action == Action::Allow
                &&& d.reasons == seq!["allowed"@]
                &&& repo.license_id matches Some(id) ==> d.reason == "license: "@ + id
                &&& repo.license_id is None ==> d.reason == "all checks passed"@
            }
            &&& count > 0 ==> {
                &&& d.action == Action::Block
                &&& d.reasons.len() == count
                &&& d.reason == d.reasons[0]
                &&& bad_license ==> d.reasons[0] == license_finding(policy, repo.license_id)
                &&& too_young ==> d.reasons[if bad_license { 1int } else { 0 }]
                    == "repo_too_young ("@ + signed_decimal(age) + " days old, minimum "@
                    + signed_decimal(policy.min_repo_age_days) + ")"@
                &&& few_stars ==> d.reasons[count - 1] == "stars_below_threshold:"@ + decimal(
                    repo.stars,
                )
            }
        }),
{
    lemma_policy_lists(policy, repo);
    let names = folded(policy, repo);
    let age = repo.age_at(now);
    let l = crate::policy::license_findings(policy, repo.license_id, names);
    let a = crate::policy::age_findings(policy, age);
    let s = crate::policy::star_findings(policy, repo.stars);
    let against = crate::policy::findings(policy, repo, names, age);
    assert(against == l + a + s);
    assert(l.len() > 0 <==> !license_acceptable(policy, repo));
    if l.len() > 0 {
        assert(against[0] == l[0]);
    }
    if a.len() > 0 {
        assert(against[l.len() as int] == a[0]);
    }
    if s.len() > 0 {
        assert(against[(l.len() + a.len()) as int] == s[0]);
    }
}

// ---------------------------------------------------------------------------
// Ages
// ---------------------------------------------------------------------------

/// The nanoseconds from one moment to another, a leap second in between the times of
/// day included.
pub open spec fn nanos_from(secs: int, nanos: int, later_secs: int, later_nanos: int) -> int {
    let leap: int = if later_secs % 86_400 > secs % 86_400 && nanos >= 1_000_000_000 {
        1
    } else if later_secs % 86_400 < secs % 86_400 && later_nanos >= 1_000_000_000 {
        -1
    } else {
        0
    };
    (later_secs - secs + leap) * 1_000_000_000 + later_nanos - nanos
}

/// The age of a repository is the number of times that 24 hours fit between its
/// creation and now. Before its creation that number counts backwards. Where the date
/// of creation cannot be read, it is counted from the start of 1970.
pub proof fn law_age_is_elapsed_days(repo: RepoView, now: Timestamp)
    ensures
        ({
            let t = match rfc3339_moment(repo.created_at) {
                Some((secs, nanos)) => nanos_from(
                    secs as int,
                    nanos as int,
                    now.secs as int,
                    now.nanos as int,
                ),
                None => nanos_from(0, 0, now.secs as int, now.nanos as int),
            };
            let age = repo.age_at(now);
            &&& t >= 0 ==> age * 86_400_000_000_000 <= t < (age + 1) * 86_400_000_000_000
            &&& t < 0 ==> (age - 1) * 86_400_000_000_000 < t <= age * 86_400_000_000_000
            &&& t >= 0 ==> age >= 0
            &&& t < 0 ==> age <= 0
        }),
{
}

/// The days from one moment to another are the times that 24 hours fit in between,
/// counted backwards where the other comes first.
pub proof fn law_days_are_24_hours(later: Timestamp, earlier: Timestamp)
    ensures
        ({
            let t = nanos_from(
                earlier.secs as int,
                earlier.nanos as int,
                later.secs as int,
                later.nanos as int,
            );
            let days = days_between(later, earlier);
            &&& t >= 0 ==> days * 86_400_000_000_000 <= t < (days + 1) * 86_400_000_000_000
            &&& t < 0 ==> (days - 1) * 86_400_000_000_000 < t <= days * 86_400_000_000_000
            &&& t >= 0 ==> days >= 0
            &&& t < 0 ==> days <= 0
        }),
        days_between(earlier, later) == -days_between(later, earlier),
{
}

/// A text denotes the moment that chrono reads in it, and none where chrono reads none.
pub proof fn law_moments_are_as_read(text: Seq<char>)
    ensures
        rfc3339_moment(text) matches Some((secs, nanos)) ==> parsed_moment(text) == Some(
            Timestamp { secs, nanos },
        ),
        rfc3339_moment(text) is None ==> parsed_moment(text) is None,
        Timestamp::spec_epoch().secs == 0 && Timestamp::spec_epoch().nanos == 0,
{
}

/// Every moment from the year -262143 to the year 262142 counts, to the nanosecond; a
/// leap second only at the end of a minute.
pub proof fn law_moments_with_a_date(t: Timestamp)
    ensures
        t.valid() <==> {
            &&& -8_334_601_228_800 <= t.secs <= 8_210_266_876_799
            &&& t.nanos < 1_000_000_000 || (t.nanos < 2_000_000_000 && t.secs as int % 60 == 59)
        },
{
}

} // verus!
