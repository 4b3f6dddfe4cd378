# GitGate

A self-hosted, policy-enforcing proxy for `git clone`, written in Rust and
verified with Verus.

GitGate sits between developers and GitHub. Allowed repositories clone normally.
Everything else is blocked before any code crosses the boundary, and the reason
is logged and told to the developer.

## Layout

- `src/` is the verified library. It does no I/O.
  - `policy`: the policy and its decisions; `policy_file`: where it is found.
  - `github`: repository metadata and how it is asked for; `clock`: ages.
  - `audit`: the entries of the audit log.
  - `proxy` and `forward`: which repository a request is about, what is answered,
    and what is sent on.
  - `tls` and `cert`: the proxy's identity and the certificates to deploy.
  - `cli`: the `gitgate` command.
  - `laws`: what holds of these parts together.
- `app/` is the program around it: arguments, files, HTTP and TLS connections.
  One executable serves as `gitgate`, `gitgate-proxy` and `gitgate-cert`.
- `tests/` runs the library.

## Policy

```yaml
# Only allow these licenses; an empty list allows any that is not blocked
license_allowlist: [MIT, Apache-2.0, BSD-2-Clause, BSD-3-Clause, ISC]
license_blocklist: []
# What to do with a repository that names no license
no_license_action: block
# The minimum age and number of stars
min_repo_age_days: 30
min_star_count: 0
# Owners that are always allowed, and owners that are always blocked
org_allowlist: []
org_blocklist: []
# Repositories that bypass all checks
exceptions:
  - my-org/approved-internal-tool
audit_log_path: audit.jsonl
```

Names are compared without regard to case. The policy file is the one given with
`--policy`, else the one that `GITGATE_POLICY_FILE` names, else the first that
exists of `/etc/gitgate/policy.yaml`, `gitgate-policy.yaml` and
`gitgate-policy.yml`.

## Environment

| Variable | Default | Meaning |
|---|---|---|
| `GITGATE_HOSTNAME` | `localhost` | Hostname in the generated certificate |
| `GITGATE_PORT` | `7443` | Port that the proxy listens on |
| `GITGATE_GITHUB_TOKEN` | none | Token for GitHub's API |
| `GITGATE_POLICY_FILE` | none | The policy file |
