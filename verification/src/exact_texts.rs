//! What the commands do and say, what the audit log holds and what the certificates
//! state, spelled out in terms of what each of them is given.
use crate::audit::{records, Entry, EntryView};
use crate::cert::{
    binds, ca_statement, certificate_pem, instructions_text, ip_address,
    is_issued, private_key_pem, server_statement, stated, unusable_host, AltName, CertificateSet,
    Subject,
};
use crate::cli::{
    clone_outcome, policy_text, report_code, report_text, CloneStep, CloneView,
};
use crate::clock::{rfc3339_text, ClockReading};
use crate::github::{api_url, refusal_text, RepoView};
use crate::policy::{Action, ConfigView, DecisionView, NoLicenseAction};
use crate::policy_file::{load_error_text, LoadError};
use crate::text::{decimal, joined, signed_decimal};
use crate::tls::{
    byte_lists, pem_certificates, pem_pkcs8_keys, served_identity, tls_result, TlsError,
};
use vstd::prelude::*;
use vstd::utf8::is_ascii_chars;

verus! {

// ---------------------------------------------------------------------------
// gitgate clone
// ---------------------------------------------------------------------------

/// For an allowed repository git is run to clone it from GitHub, with every argument
/// that was given, in order, and none besides.
pub proof fn law_git_gets_every_argument(
    repo: Seq<char>,
    git_args: Seq<Seq<char>>,
    d: DecisionView,
    audit_id: Seq<char>,
)
    requires
        d.action == Action::Allow,
    ensures
        clone_outcome(repo, git_args, d, audit_id) matches CloneView::RunGit { notice, args } && {
            &&& args.len() == git_args.len() + 2
            &&& args[0] == "clone"@
            &&& args[1] == "https://github.com/"@ + repo
            &&& forall|i: int| 0 <= i < git_args.len() ==> args[i + 2] == #[trigger] git_args[i]
            &&& notice == "  GitGate: ALLOW — "@ + d.reason + "\n"@
        },
{
}

/// For a blocked repository git is not run. People are told which repository it is, why
/// it is blocked and under which identifier that was logged, and the exit code is 1.
pub proof fn law_a_blocked_clone_says_why(
    repo: Seq<char>,
    git_args: Seq<Seq<char>>,
    d: DecisionView,
    audit_id: Seq<char>,
)
    requires
        d.action == Action::Block,
    ensures
        clone_outcome(repo, git_args, d, audit_id) == (CloneView::Abort {
            message: "\n  GitGate Policy Block\n  "@ + Seq::new(45, |i: int| '─')
                + "\n  Repository : "@ + repo + "\n  Reason     : "@ + d.reason
                + "\n  Audit ID   : "@ + audit_id
                + "\n\n  Clone aborted. Contact your security team to request an exception.\n"@,
            exit_code: 1,
        }),
{
    assert(crate::cli::rule(45) =~= Seq::new(45, |i: int| '─'));
}

/// A step of a clone says what stands in it, every argument included.
pub proof fn law_the_whole_clone_step_counts(
    notice: String,
    args: Vec<String>,
    message: String,
    exit_code: i32,
)
    ensures
        (CloneStep::RunGit { notice, args })@ == (CloneView::RunGit {
            notice: notice@,
            args: args@.map_values(|s: String| s@),
        }),
        (CloneStep::Abort { message, exit_code })@ == (CloneView::Abort {
            message: message@,
            exit_code,
        }),
{
}

// ---------------------------------------------------------------------------
// gitgate check
// ---------------------------------------------------------------------------

/// A dry run reports what is known of the repository, the decision and its reason, and
/// exits with 0 where it is allowed and 1 where it is blocked.
pub proof fn law_a_dry_run_reports_the_decision(
    repo: Seq<char>,
    meta: RepoView,
    age: int,
    d: DecisionView,
)
    ensures
        report_text(repo, meta, age, d) == "  Repository : "@ + repo + "\n  License    : "@ + (
        if meta.license_id is Some {
            meta.license_id->0
        } else {
            "none"@
        }) + "\n  Age        : "@ + signed_decimal(age) + " days\n  Stars      : "@ + decimal(
            meta.stars,
        ) + "\n  Decision   : "@ + (if d.action == Action::Allow {
            "ALLOW"@
        } else {
            "BLOCK"@
        }) + "\n  Reason     : "@ + d.reason + "\n"@,
        d.action == Action::Allow ==> report_code(d) == 0,
        d.action == Action::Block ==> report_code(d) == 1,
{
}

// ---------------------------------------------------------------------------
// gitgate policy show
// ---------------------------------------------------------------------------

/// A policy is shown with where it was found, and with every list, minimum and path in
/// it. An empty list of allowed licenses allows any, and any other empty list is none.
pub proof fn law_the_whole_policy_is_shown(policy: ConfigView, path: Seq<char>)
    ensures
        policy_text(policy, path) == "  Policy file : "@ + path + "\n  License allowlist  : "@ + (
        if policy.license_allowlist.len() == 0 {
            "(any)"@
        } else {
            joined(policy.license_allowlist, ", "@)
        }) + "\n  License blocklist  : "@ + (if policy.license_blocklist.len() == 0 {
            "(none)"@
        } else {
            joined(policy.license_blocklist, ", "@)
        }) + "\n  No-license action  : "@ + (if policy.no_license_action
            == NoLicenseAction::Block {
            "Block"@
        } else {
            "Allow"@
        }) + "\n  Min repo age       : "@ + signed_decimal(policy.min_repo_age_days)
            + " days\n  Min stars          : "@ + decimal(policy.min_star_count)
            + "\n  Org allowlist      : "@ + (if policy.org_allowlist.len() == 0 {
            "(none)"@
        } else {
            joined(policy.org_allowlist, ", "@)
        }) + "\n  Org blocklist      : "@ + (if policy.org_blocklist.len() == 0 {
            "(none)"@
        } else {
            joined(policy.org_blocklist, ", "@)
        }) + "\n  Exceptions         : "@ + (if policy.exceptions.len() == 0 {
            "(none)"@
        } else {
            joined(policy.exceptions, ", "@)
        }) + "\n  Audit log          : "@ + policy.audit_log_path + "\n"@,
{
}

/// What is said where there is no policy: which file was asked for, or all that were
/// searched, or why the one that was found is of no use.
pub proof fn law_a_missing_policy_is_told(path: String, paths: Vec<String>)
    ensures
        load_error_text(LoadError::NotFound(path)) == "policy file not found: "@ + path@,
        load_error_text(LoadError::NoneFound(paths)) == "no policy file found. Searched:\n"@
            + joined(paths@.map_values(|s: String| s@), "\n"@)
            + "\n\nCreate a policy file or set GITGATE_POLICY_FILE."@,
        load_error_text(LoadError::Unreadable(path)) == path@,
        load_error_text(LoadError::Invalid(path)) == path@,
{
}

// ---------------------------------------------------------------------------
// GitHub
// ---------------------------------------------------------------------------

/// GitHub is asked about the repository itself, and what it answers to refuse is told
/// word for word.
pub proof fn law_github_is_asked_and_quoted(
    owner: Seq<char>,
    repo: Seq<char>,
    status_line: Seq<char>,
    body: Seq<char>,
)
    ensures
        api_url(owner, repo) == "https://api.github.com/repos/"@ + owner + "/"@ + repo,
        refusal_text(status_line, Some(body)) == "GitHub API returned "@ + status_line + ": "@
            + body,
        refusal_text(status_line, None) == "GitHub API returned "@ + status_line + ": "@,
{
    assert("GitHub API returned "@ + status_line + ": "@ + Seq::<char>::empty()
        =~= "GitHub API returned "@ + status_line + ": "@);
}

// ---------------------------------------------------------------------------
// The audit log
// ---------------------------------------------------------------------------

/// An entry holds all that there is to know of a decision: an identifier that no other
/// entry has by design, when it was made by the clock, on which repository, what was
/// known of it and how old it was by the clock, and what was decided with every reason.
pub proof fn law_entries_hold_everything(
    e: EntryView,
    repo: Seq<char>,
    meta: RepoView,
    d: DecisionView,
)
    requires
        records(e, repo, meta, d),
    ensures
        e.action == d.action,
        e.repo == repo,
        e.reasons == d.reasons,
        e.license == meta.license_id,
        e.stars == meta.stars,
        e.gitgate_version == "0.1.0"@,
        e.id.len() == 39,
        e.id.take(3) == "gg-"@,
        forall|i: int| 0 <= i < 36 ==> #[trigger] e.id[i + 3] == '-' || '0' <= e.id[i + 3] <= '9'
            || 'a' <= e.id[i + 3] <= 'f',
        exists|at: ClockReading|
            at@.valid() && e.timestamp == #[trigger] rfc3339_text(at@.secs, at@.nanos),
        exists|now: ClockReading| now@.valid() && e.repo_age_days == #[trigger] meta.age_at(now@),
{
    reveal_strlit("gg-");
    let (uuid, at, now) = choose|uuid: Seq<char>, at: ClockReading, now: ClockReading|
        crate::audit::is_random_uuid(uuid) && at@.valid() && now@.valid()
            && e == #[trigger] crate::audit::entry(
            repo,
            meta,
            d,
            uuid,
            rfc3339_text(at@.secs, at@.nanos),
            meta.age_at(now@),
        );
    assert(e.id.take(3) =~= "gg-"@);
    assert(e.timestamp == rfc3339_text(at@.secs, at@.nanos));
    assert(e.repo_age_days == meta.age_at(now@));
    assert forall|i: int| 0 <= i < 36 implies #[trigger] e.id[i + 3] == '-' || '0' <= e.id[i + 3]
        <= '9' || 'a' <= e.id[i + 3] <= 'f' by {
        assert(e.id[i + 3] == uuid[i]);
    }
}

/// An entry with given identifier, time and age holds those and what was decided.
pub proof fn law_entries_of_given_values(
    repo: Seq<char>,
    meta: RepoView,
    d: DecisionView,
    uuid: Seq<char>,
    timestamp: Seq<char>,
    age: int,
)
    ensures
        crate::audit::entry(repo, meta, d, uuid, timestamp, age) == (EntryView {
            id: "gg-"@ + uuid,
            timestamp,
            action: d.action,
            repo,
            license: meta.license_id,
            repo_age_days: age,
            stars: meta.stars,
            reasons: d.reasons,
            gitgate_version: "0.1.0"@,
        }),
{
}

/// What an entry says is all that stands in it.
pub proof fn law_the_whole_entry_counts(e: Entry)
    ensures
        e@.id == e.id@,
        e@.timestamp == e.timestamp@,
        e@.action == e.action,
        e@.repo == e.repo@,
        e.license matches Some(id) ==> e@.license == Some(id@),
        e.license is None ==> e@.license is None,
        e@.repo_age_days == e.repo_age_days,
        e@.stars == e.stars,
        e@.reasons == e.reasons@.map_values(|s: String| s@),
        e@.gitgate_version == e.gitgate_version@,
{
}

// ---------------------------------------------------------------------------
// The certificates
// ---------------------------------------------------------------------------

/// What the two certificates state. The server's is valid for each of the hosts, in
/// order, and for the loopback address, and for nothing else.
pub proof fn law_what_the_certificates_state(hosts: Seq<Seq<char>>, i: int)
    ensures
        ca_statement().subject == (Subject {
            common_name: "GitGate CA"@,
            organization: Some("GitGate"@),
        }),
        ca_statement().issuer == ca_statement().subject,
        ca_statement().alt_names.len() == 0,
        ca_statement().ca_path_length == Some(0u8),
        ca_statement().valid_years == (1975int, 4096int),
        server_statement(hosts).subject == (Subject {
            common_name: "gitgate-proxy"@,
            organization: None,
        }),
        server_statement(hosts).issuer == (Subject {
            common_name: "GitGate CA"@,
            organization: Some("GitGate"@),
        }),
        server_statement(hosts).ca_path_length is None,
        server_statement(hosts).valid_years == (1975int, 4096int),
        server_statement(hosts).alt_names.len() == hosts.len() + 1,
        server_statement(hosts).alt_names.last() == AltName::Ip(seq![127, 0, 0, 1]),
        0 <= i < hosts.len() ==> server_statement(hosts).alt_names[i] == match ip_address(
            hosts[i],
        ) {
            Some(bytes) => AltName::Ip(bytes),
            None => AltName::Dns(hosts[i]),
        },
{
}

/// A set of certificates that was issued with two key pairs is made of a certificate
/// about the first that it signed itself, one about the second that the first signed,
/// and the private half of the second.
pub proof fn law_what_is_issued(
    set: CertificateSet,
    ca_key: rcgen::KeyPair,
    server_key: rcgen::KeyPair,
    hosts: Seq<Seq<char>>,
)
    requires
        is_issued(set, ca_key, server_key, hosts),
    ensures
        exists|ca: rcgen::Certificate|
            #[trigger] binds(ca, ca_key, ca_key) && stated(ca) == ca_statement() && set.ca_cert@
                == certificate_pem(ca),
        exists|server: rcgen::Certificate|
            #[trigger] binds(server, server_key, ca_key) && stated(server) == server_statement(
                hosts,
            ) && set.server_cert@ == certificate_pem(server),
        set.server_key@ == private_key_pem(server_key),
{
}

/// The first host that is not ASCII is the one that cannot stand in a certificate;
/// where they all are, there is none.
pub proof fn law_the_first_unusable_host_is_named(hosts: Seq<Seq<char>>, i: int)
    requires
        0 <= i <= hosts.len(),
        forall|j: int| 0 <= j < i ==> is_ascii_chars(#[trigger] hosts[j]),
    ensures
        i < hosts.len() && !is_ascii_chars(hosts[i]) ==> unusable_host(hosts) == Some(hosts[i]),
        i == hosts.len() ==> unusable_host(hosts) is None,
    decreases hosts.len(),
{
    if i > 0 {
        let rest = hosts.skip(1);
        assert forall|j: int| 0 <= j < i - 1 implies is_ascii_chars(#[trigger] rest[j]) by {
            assert(rest[j] == hosts[j + 1]);
        }
        law_the_first_unusable_host_is_named(rest, i - 1);
        assert(is_ascii_chars(hosts[0]));
        if i < hosts.len() {
            assert(rest[i - 1] == hosts[i]);
        }
    }
}

/// The instructions name the files that were made, every host that the certificate is
/// for, and the first host as the one to reach the proxy under.
pub proof fn law_instructions_name_the_files(
    out_dir: Seq<char>,
    hosts: Seq<Seq<char>>,
    ca_path: Seq<char>,
    cert_path: Seq<char>,
    key_path: Seq<char>,
)
    ensures
        instructions_text(out_dir, hosts, ca_path, cert_path, key_path)
            == "[gitgate-cert] Generated in "@ + out_dir + "/\n"@
            + "  ca.crt     — install on developer machines\n"@
            + "  server.crt — proxy certificate  (SANs: "@ + joined(hosts, ", "@)
            + ", 127.0.0.1)\n"@ + "  server.key — proxy private key\n"@ + "\n"@
            + "Install the CA on developer machines:\n"@
            + "  macOS:   sudo security add-trusted-cert -d -r trustRoot \\\n"@
            + "             -k /Library/Keychains/System.keychain "@ + ca_path + "\n"@
            + "  Linux:   sudo cp "@ + ca_path
            + " /usr/local/share/ca-certificates/gitgate.crt \\\n"@
            + "             && sudo update-ca-certificates\n"@
            + "  Windows: certutil -addstore -f \"ROOT\" "@ + ca_path + "\n"@ + "\n"@
            + "Run the proxy with TLS:\n"@ + "  gitgate-proxy --port 7443 --tls-cert "@ + cert_path
            + " --tls-key "@ + key_path + "\n"@ + "\n"@ + "Configure git on developer machines:\n"@
            + "  git config --global url.\"https://"@ + (if hosts.len() > 0 {
            hosts[0]
        } else {
            "localhost"@
        }) + ":7443/\".insteadOf \"https://github.com/\"\n"@,
{
}

// ---------------------------------------------------------------------------
// TLS
// ---------------------------------------------------------------------------

/// The proxy serves every certificate of the one file, in order, with the first key of
/// the other. A file that cannot be read as PEM, or has no key in it, is told as such.
pub proof fn law_the_whole_chain_is_served(
    cert_data: Seq<u8>,
    key_data: Seq<u8>,
    key_path: Seq<char>,
    config: Result<rustls::ServerConfig, TlsError>,
)
    requires
        tls_result(cert_data, key_data, key_path, config),
    ensures
        config matches Ok(c) ==> {
            &&& pem_certificates(cert_data) == Some(served_identity(c).drop_last())
            &&& pem_pkcs8_keys(key_data) matches Some(keys) && keys.len() > 0
                && served_identity(c).last() == keys[0]
        },
        config matches Err(TlsError::Certificates(_)) <==> pem_certificates(cert_data) is None,
        config matches Err(TlsError::Keys(_)) <==> pem_certificates(cert_data) is Some
            && pem_pkcs8_keys(key_data) is None,
        config matches Err(TlsError::NoKey(_)) <==> pem_certificates(cert_data) is Some
            && pem_pkcs8_keys(key_data) == Some(Seq::<Seq<u8>>::empty()),
        config matches Err(TlsError::NoKey(path)) ==> path@ == key_path,
{
    if config is Ok {
        let chain = pem_certificates(cert_data)->0;
        let keys = pem_pkcs8_keys(key_data)->0;
        assert(chain.push(keys[0]).drop_last() =~= chain);
    }
    if pem_pkcs8_keys(key_data) matches Some(keys) && keys.len() == 0 {
        assert(pem_pkcs8_keys(key_data)->0 =~= Seq::<Seq<u8>>::empty());
    }
}

/// What a list of byte strings says is every byte of each of them, in order.
pub proof fn law_every_byte_string_counts(list: Seq<Vec<u8>>, i: int)
    ensures
        byte_lists(list).len() == list.len(),
        0 <= i < list.len() ==> byte_lists(list)[i] == list[i]@,
{
}

/// What is said where there is no TLS identity.
pub proof fn law_a_missing_identity_is_told(error: TlsError)
    ensures
        error is Certificates ==> error.text() == "parsing TLS cert"@,
        error is Keys ==> error.text() == "parsing TLS key"@,
        error is NoKey ==> error.text() == "no PKCS8 private key found in "@ + error->NoKey_0@,
        error is Rejected ==> error.text() == "TLS configuration error"@,
{
}

} // verus!
