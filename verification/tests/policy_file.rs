use gitgate::policy::Config;
use gitgate::policy_file::{LoadError, Lookup};

fn list(names: &[&str]) -> Vec<String> {
    names.iter().map(|n| n.to_string()).collect()
}

/// Runs a search on a file system that holds the given files.
fn search(path: Option<&str>, candidates: &Vec<String>, files: &[&str]) -> Result<String, LoadError> {
    let mut exists = Vec::new();
    loop {
        match Config::load_with_path(path, candidates, &exists)? {
            Lookup::Probe(p) => exists.push(files.contains(&p.as_str())),
            Lookup::Read(p) => return Ok(p),
        }
    }
}

#[test]
fn search_order_without_a_variable() {
    assert_eq!(
        Config::search_paths(None, false),
        list(&["/etc/gitgate/policy.yaml", "gitgate-policy.yaml", "gitgate-policy.yml"])
    );
    assert_eq!(
        Config::search_paths(Some(""), true),
        list(&[
            "C:\\ProgramData\\gitgate\\policy.yaml",
            "gitgate-policy.yaml",
            "gitgate-policy.yml"
        ])
    );
}

#[test]
fn variable_is_authoritative() {
    assert_eq!(Config::search_paths(Some("/srv/p.yaml"), false), list(&["/srv/p.yaml"]));
    let candidates = Config::search_paths(Some("/srv/p.yaml"), false);
    assert_eq!(
        search(None, &candidates, &["gitgate-policy.yaml"]),
        Err(LoadError::NoneFound(list(&["/srv/p.yaml"])))
    );
}

#[test]
fn first_existing_file_is_read() {
    let candidates = Config::search_paths(None, false);
    assert_eq!(
        search(None, &candidates, &["gitgate-policy.yml", "gitgate-policy.yaml"]),
        Ok("gitgate-policy.yaml".to_string())
    );
    assert_eq!(
        search(None, &candidates, &["gitgate-policy.yml"]),
        Ok("gitgate-policy.yml".to_string())
    );
    assert_eq!(
        Config::load_with_path(None, &candidates, &vec![false]),
        Ok(Lookup::Probe("gitgate-policy.yaml".to_string()))
    );
}

#[test]
fn named_file_is_the_only_one() {
    let candidates = Config::search_paths(None, false);
    let all = ["/etc/gitgate/policy.yaml", "mine.yaml"];
    assert_eq!(search(Some("mine.yaml"), &candidates, &all), Ok("mine.yaml".to_string()));
    let missing = search(Some("other.yaml"), &candidates, &all);
    assert_eq!(missing, Err(LoadError::NotFound("other.yaml".to_string())));
    assert_eq!(missing.unwrap_err().message(), "policy file not found: other.yaml");
}

#[test]
fn message_when_nothing_is_found() {
    let candidates = Config::search_paths(None, false);
    let error = search(None, &candidates, &[]).unwrap_err();
    assert_eq!(
        error.message(),
        "no policy file found. Searched:\n/etc/gitgate/policy.yaml\ngitgate-policy.yaml\n\
         gitgate-policy.yml\n\nCreate a policy file or set GITGATE_POLICY_FILE."
    );
    assert_eq!(LoadError::Unreadable("denied".to_string()).message(), "denied");
    assert_eq!(LoadError::Invalid("bad".to_string()).message(), "bad");
}

#[test]
fn load_drops_the_path() {
    let config = Config { min_star_count: 7, ..Config::default() };
    let loaded = Config::load(Ok((config, "p.yaml".to_string())));
    assert_eq!(loaded.unwrap().min_star_count, 7);
    let error = Config::load(Err(LoadError::NotFound("p".to_string())));
    assert_eq!(error.unwrap_err(), LoadError::NotFound("p".to_string()));
}
