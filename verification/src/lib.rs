//! GitGate: a policy-enforcing proxy for `git clone`.
//!
//! This library holds what GitGate decides and says: the policy and its
//! decisions, the audit log, the proxy's handling of requests, the commands and
//! the certificates. It does no I/O of its own. Each function states what it
//! returns in its contract, and `laws` states what holds of them together. `exact`,
//! `exact_proxy` and `exact_texts` spell out what each of them gives.
pub mod audit;
pub mod cert;
pub mod cli;
pub mod clock;
pub mod exact;
pub mod exact_proxy;
pub mod exact_texts;
pub mod forward;
pub mod github;
pub mod keys;
pub mod laws;
pub mod policy;
pub mod policy_file;
pub mod proxy;
pub mod text;
pub mod tls;
