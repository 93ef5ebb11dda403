use seidr::{Category, Config, GitCommand, GitOp, Pipeline, Repo, RepoFlags, RepoKinds, SeriesItem};

fn s(x: &str) -> String {
    x.to_string()
}

fn repo(name: &str, path: &str, flags: Option<Vec<RepoFlags>>) -> Repo {
    Repo {
        name: Some(s(name)),
        path: Some(s(path)),
        url: Some(s("https://example.org/r.git")),
        kind: Some(RepoKinds::GitRepo),
        flags,
    }
}

fn one_category(repos: Vec<(String, Repo)>) -> Config {
    Config {
        categories: vec![(s("dots"), Category { flags: None, repos: Some(repos), links: None })],
    }
}

fn args(c: &GitCommand) -> Vec<&str> {
    c.args.iter().map(|a| a.as_str()).collect()
}

/// Runs a pipeline, answering each step with the next outcome; returns the
/// (repository, operation) pairs visited and whether each step succeeded.
fn drive(mut p: Pipeline, outcomes: &[bool]) -> Vec<(String, String, bool)> {
    let mut seen = Vec::new();
    let mut k = 0;
    while let Some(t) = p.current() {
        let name = (t.repo.clone(), t.operation.clone());
        let exit_ok = outcomes.get(k).copied().unwrap_or(true);
        k += 1;
        let ok = p.advance(exit_ok);
        seen.push((name.0, name.1, ok));
    }
    seen
}

fn ops(seen: &[(String, String, bool)]) -> Vec<String> {
    seen.iter().map(|(r, o, _)| format!("{r}:{o}")).collect()
}

#[test]
fn clone_only_repo_clones_and_nothing_else() {
    let config = one_category(vec![(s("gg"), Repo {
        name: Some(s("gg")),
        path: Some(s("/tmp/")),
        url: Some(s("https://example.org/gg.git")),
        kind: None,
        flags: Some(vec![RepoFlags::Clone]),
    })]);
    let mut p = config.clone_all();
    let t = p.current().expect("one task");
    assert_eq!(t.repo, "gg");
    assert_eq!(t.operation, "clone");
    assert!(t.permitted);
    let c = t.command.as_ref().expect("clone runs git");
    assert_eq!(c.dir, "/tmp/");
    assert_eq!(args(c), vec!["clone", "https://example.org/gg.git", "gg"]);
    assert!(p.advance(true));
    assert!(p.current().is_none());

    for mut p in [config.pull_all(), config.add_all(), config.commit_all(), config.push_all(), config.commit_all_msg("m")] {
        let t = p.current().expect("one task");
        assert!(!t.permitted);
        assert!(t.command.is_none());
        assert!(!p.advance(true));
        assert!(p.is_finished());
    }
}

#[test]
fn fast_stops_a_repository_at_its_first_failure() {
    let config = one_category(vec![
        (s("a"), repo("a", "/nowhere/", Some(vec![RepoFlags::Fast]))),
        (s("b"), repo("b", "/tmp/", Some(vec![RepoFlags::Fast]))),
    ]);
    let seen = drive(config.fast("msg"), &[true, false, true, true, true, true]);
    assert_eq!(ops(&seen), vec!["a:pull", "a:add", "b:pull", "b:add", "b:commit", "b:push"]);
    assert!(!seen[1].2);
}

#[test]
fn quick_attempts_every_step_after_a_failure() {
    let config = one_category(vec![
        (s("a"), repo("a", "/nowhere/", Some(vec![RepoFlags::Fast]))),
        (s("b"), repo("b", "/tmp/", Some(vec![RepoFlags::Fast]))),
    ]);
    let seen = drive(config.quick("msg"), &[true, false, false, false, true, true, true, true]);
    assert_eq!(
        ops(&seen),
        vec!["a:pull", "a:add", "a:commit", "a:push", "b:pull", "b:add", "b:commit", "b:push"]
    );
    assert_eq!(seen.iter().filter(|x| !x.2).count(), 3);
}

#[test]
fn fast_treats_a_denied_step_as_failure() {
    let config = one_category(vec![(s("a"), repo("a", "/tmp/", Some(vec![RepoFlags::Pull])))]);
    let seen = drive(config.fast("msg"), &[true, true, true, true]);
    assert_eq!(ops(&seen), vec!["a:pull", "a:add"]);
    assert!(seen[0].2);
    assert!(!seen[1].2);
}

#[test]
fn quick_commands_carry_the_message() {
    let config = one_category(vec![(s("a"), repo("a", "/src/", Some(vec![RepoFlags::Quick])))]);
    let mut p = config.quick("hello there");
    let t = p.current().unwrap();
    assert_eq!(t.operation, "pull");
    assert!(t.command.is_none());
    p.advance(true);
    let t = p.current().unwrap();
    assert_eq!(args(t.command.as_ref().unwrap()), vec!["add", "."]);
    assert_eq!(t.command.as_ref().unwrap().dir, "/src/a");
    p.advance(true);
    let t = p.current().unwrap();
    assert_eq!(args(t.command.as_ref().unwrap()), vec!["commit", "-m", "hello there"]);
    p.advance(true);
    let t = p.current().unwrap();
    assert_eq!(args(t.command.as_ref().unwrap()), vec!["push"]);
    p.advance(true);
    assert!(p.current().is_none());
}

#[test]
fn categories_without_repositories_are_skipped() {
    let config = Config {
        categories: vec![
            (s("empty"), Category { flags: None, repos: None, links: None }),
            (s("x"), Category { flags: Some(vec![]), repos: Some(vec![(s("r"), repo("r", "/p/", Some(vec![RepoFlags::Pull])))]), links: None }),
            (s("none"), Category { flags: None, repos: Some(vec![]), links: None }),
        ],
    };
    let seen = drive(config.pull_all(), &[true]);
    assert_eq!(ops(&seen), vec!["r:pull"]);
    assert!(seen[0].2);
}

#[test]
fn custom_series_and_empty_series() {
    let config = one_category(vec![(s("a"), repo("a", "/p/", Some(vec![RepoFlags::Commit])))]);
    let series = vec![SeriesItem { operation: s("c"), action: GitOp::Commit }];
    let mut p = config.all_on_all(&series, true);
    let t = p.current().unwrap();
    assert!(t.command.as_ref().unwrap().interactive);
    assert!(!p.advance(false));
    assert!(p.is_finished());
    let p = config.all_on_all(&Vec::new(), false);
    assert!(p.is_finished());
}

#[test]
fn failed_exit_status_is_a_failed_step() {
    let config = one_category(vec![(s("a"), repo("a", "/p/", Some(vec![RepoFlags::Pull])))]);
    let mut p = config.pull_all();
    assert!(!p.advance(false));
    assert!(p.is_finished());
}
