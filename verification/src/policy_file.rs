//! Where the policy is found.
//!
//! Nothing here touches the file system. Whoever does reports which files
//! exist, and is told which one to ask about or to read next.
use crate::policy::Config;
use crate::text::{copy_list, join, joined, single, texts};
use vstd::prelude::*;
use vstd::string::*;

verus! {

/// What to do next to find the policy file.
#[derive(Debug, PartialEq, Eq)]
pub enum Lookup {
    /// Find out whether there is a file of this name.
    Probe(String),
    /// Read the policy in this file.
    Read(String),
}

/// Why there is no policy.
#[derive(Debug, PartialEq, Eq)]
pub enum LoadError {
    /// The file that was asked for does not exist.
    NotFound(String),
    /// None of these files exists.
    NoneFound(Vec<String>),
    /// The file could not be read; the text says why.
    Unreadable(String),
    /// The file does not hold a policy; the text says why.
    Invalid(String),
}

/// The text of a `LoadError`.
pub open spec fn load_error_text(error: LoadError) -> Seq<char> {
    match error {
        LoadError::NotFound(path) => "policy file not found: "@ + path@,
        LoadError::NoneFound(paths) => "no policy file found. Searched:\n"@ + joined(
            texts(paths@),
            "\n"@,
        ) + "\n\nCreate a policy file or set GITGATE_POLICY_FILE."@,
        LoadError::Unreadable(why) => why@,
        LoadError::Invalid(why) => why@,
    }
}

impl LoadError {
    /// The error as people are told it.
    pub fn message(&self) -> (message: String)
        ensures
            message@ == load_error_text(*self),
    {
        match self {
            LoadError::NotFound(path) => "policy file not found: ".to_owned().concat(
                path.as_str(),
            ),
            LoadError::NoneFound(paths) => {
                let list = join(paths, "\n");
                "no policy file found. Searched:\n".to_owned().concat(list.as_str()).concat(
                    "\n\nCreate a policy file or set GITGATE_POLICY_FILE.",
                )
            },
            LoadError::Unreadable(why) => why.clone(),
            LoadError::Invalid(why) => why.clone(),
        }
    }
}

/// Where an administrator puts the policy for the whole system.
pub open spec fn system_path(windows: bool) -> Seq<char> {
    if windows {
        "C:\\ProgramData\\gitgate\\policy.yaml"@
    } else {
        "/etc/gitgate/policy.yaml"@
    }
}

/// The files that may hold the policy, in the order in which they are tried.
/// A file named by the environment is the only one; an empty name counts as none.
pub open spec fn policy_paths(variable: Option<Seq<char>>, windows: bool) -> Seq<Seq<char>> {
    if variable matches Some(path) && path.len() > 0 {
        seq![variable->0]
    } else {
        seq![system_path(windows), "gitgate-policy.yaml"@, "gitgate-policy.yml"@]
    }
}

/// The first file that is known to exist, as a position in the list, or the
/// number of files asked about so far when none is.
pub open spec fn first_existing(exists: Seq<bool>) -> int
    decreases exists.len(),
{
    if exists.len() == 0 || exists[0] {
        0
    } else {
        1 + first_existing(exists.skip(1))
    }
}

/// The next thing to do with the files `paths` when it is known of the first
/// few of them whether they exist: read the first one that does, else ask
/// about the next. There is nothing to do when none of them exists.
pub open spec fn next_lookup(paths: Seq<Seq<char>>, exists: Seq<bool>) -> Option<LookupView> {
    let i = first_existing(exists);
    if i >= paths.len() {
        None
    } else if i < exists.len() {
        Some(LookupView::Read(paths[i]))
    } else {
        Some(LookupView::Probe(paths[i]))
    }
}

/// What a `Lookup` says.
pub enum LookupView {
    Probe(Seq<char>),
    Read(Seq<char>),
}

impl View for Lookup {
    type V = LookupView;

    open spec fn view(&self) -> LookupView {
        match *self {
            Lookup::Probe(path) => LookupView::Probe(path@),
            Lookup::Read(path) => LookupView::Read(path@),
        }
    }
}

/// `first_existing` is within bounds, no file before it exists, and it does
/// unless it is the number of answers.
pub proof fn lemma_first_existing(exists: Seq<bool>)
    ensures
        0 <= first_existing(exists) <= exists.len(),
        forall|i: int| 0 <= i < first_existing(exists) ==> !exists[i],
        first_existing(exists) < exists.len() ==> exists[first_existing(exists)],
    decreases exists.len(),
{
    if exists.len() > 0 && !exists[0] {
        let rest = exists.skip(1);
        lemma_first_existing(rest);
        assert forall|i: int| 0 <= i < first_existing(exists) implies !exists[i] by {
            if i > 0 {
                assert(exists[i] == rest[i - 1]);
            }
        }
        if first_existing(exists) < exists.len() {
            assert(exists[first_existing(exists)] == rest[first_existing(rest)]);
        }
    }
}

/// Finds the first file of a list that is to be read or asked about.
fn next_path(paths: &Vec<String>, exists: &Vec<bool>) -> (next: Option<Lookup>)
    ensures
        match next {
            Some(lookup) => next_lookup(texts(paths@), exists@) == Some(lookup@),
            None => next_lookup(texts(paths@), exists@) is None,
        },
{
    let mut i: usize = 0;
    assert(exists@.skip(0) =~= exists@);
    while i < exists.len() && !exists[i]
        invariant
            i <= exists.len(),
            first_existing(exists@) == i + first_existing(exists@.skip(i as int)),
        decreases exists.len() - i,
    {
        assert(exists@.skip(i as int).skip(1) =~= exists@.skip(i + 1));
        i = i + 1;
    }
    if i >= paths.len() {
        None
    } else if i < exists.len() {
        Some(Lookup::Read(paths[i].clone()))
    } else {
        Some(Lookup::Probe(paths[i].clone()))
    }
}

impl Config {
    /// The files that may hold the policy, in the order in which they are
    /// tried: the one that `GITGATE_POLICY_FILE` names, if it names one, and
    /// otherwise the one for the whole system and those in the current
    /// directory.
    pub fn search_paths(variable: Option<&str>, windows: bool) -> (paths: Vec<String>)
        ensures
            texts(paths@) == policy_paths(
                match variable {
                    Some(path) => Some(path@),
                    None => None,
                },
                windows,
            ),
    {
        match variable {
            Some(path) => {
                if !path.is_empty() {
                    return single(path);
                }
            },
            None => {},
        }
        let mut paths: Vec<String> = Vec::new();
        if windows {
            paths.push("C:\\ProgramData\\gitgate\\policy.yaml".to_owned());
        } else {
            paths.push("/etc/gitgate/policy.yaml".to_owned());
        }
        paths.push("gitgate-policy.yaml".to_owned());
        paths.push("gitgate-policy.yml".to_owned());
        assert(texts(paths@) =~= seq![
            system_path(windows),
            "gitgate-policy.yaml"@,
            "gitgate-policy.yml"@,
        ]);
        paths
    }

    /// One step of finding the policy file: which file to ask about or to read
    /// next. A file that is asked for by name is the only one; otherwise
    /// `candidates` are tried in order. `exists` tells, of the files asked
    /// about so far, whether they exist.
    pub fn load_with_path(
        path: Option<&str>,
        candidates: &Vec<String>,
        exists: &Vec<bool>,
    ) -> (next: Result<Lookup, LoadError>)
        ensures
            path matches Some(p) ==> match next_lookup(seq![p@], exists@) {
                Some(lookup) => next matches Ok(l) && l@ == lookup,
                None => next matches Err(LoadError::NotFound(q)) && q@ == p@,
            },
            path is None ==> match next_lookup(texts(candidates@), exists@) {
                Some(lookup) => next matches Ok(l) && l@ == lookup,
                None => next matches Err(LoadError::NoneFound(searched)) && texts(searched@)
                    == texts(candidates@),
            },
    {
        match path {
            Some(p) => match next_path(&single(p), exists) {
                Some(lookup) => Ok(lookup),
                None => Err(LoadError::NotFound(p.to_owned())),
            },
            None => match next_path(candidates, exists) {
                Some(lookup) => Ok(lookup),
                None => Err(LoadError::NoneFound(copy_list(candidates))),
            },
        }
    }

    /// The policy out of what was found, without the place where it was.
    pub fn load(found: Result<(Config, String), LoadError>) -> (config: Result<Config, LoadError>)
        ensures
            config == (match found {
                Ok((policy, _)) => Ok::<Config, LoadError>(policy),
                Err(error) => Err(error),
            }),
    {
        match found {
            Ok((policy, _)) => Ok(policy),
            Err(error) => Err(error),
        }
    }
}

} // verus!
