use seidr::{Category, Config, Link, Repo, RepoFlags, RepoKinds};

fn s(x: &str) -> String {
    x.to_string()
}

fn repo(name: &str, path: &str, flags: Option<Vec<RepoFlags>>) -> Repo {
    Repo {
        name: Some(s(name)),
        path: Some(s(path)),
        url: Some(s("https://github.com/cafkafk/seidr")),
        kind: Some(RepoKinds::GitRepo),
        flags,
    }
}

fn link(name: &str, tx: &str, rx: &str) -> Link {
    Link { name: s(name), tx: s(tx), rx: s(rx) }
}

#[test]
fn main() {
    assert!(true);
}

#[test]
fn init_config() {
    let _config = Config { categories: Vec::new() };
}

#[test]
fn init_config_populate() {
    let mut default_category = Category {
        flags: Some(vec![]),
        repos: Some(Vec::new()),
        links: Some(Vec::new()),
    };
    for i in 0..=5 {
        default_category.insert_repo(
            format!("{}", i),
            Repo {
                name: Some("test repo".to_string()),
                path: Some("/tmp".to_string()),
                url: Some("https://github.com/cafkafk/seidr".to_string()),
                flags: Some(vec![RepoFlags::Clone, RepoFlags::Push]),
                kind: None,
            },
        );
    }
    let mut config = Config::empty();
    config.insert_category(format!("{}", 0), default_category);
    let repos = config.categories[0].1.repos.as_ref().expect("failed to get repo");
    assert_eq!(repos.len(), 6);
    assert!(config.get_repo("0", "5").is_some());
}

#[test]
fn insert_replaces_in_place_and_appends_new_names() {
    let mut cat = Category::empty();
    cat.insert_repo(s("a"), repo("a", "/one/", None));
    cat.insert_repo(s("b"), repo("b", "/two/", None));
    cat.insert_repo(s("a"), repo("a", "/three/", None));
    cat.insert_link(s("l"), link("l", "/t", "/r"));
    let keys: Vec<&str> = cat.repos.as_ref().unwrap().iter().map(|(k, _)| k.as_str()).collect();
    assert_eq!(keys, vec!["a", "b"]);
    let mut config = Config::empty();
    config.insert_category(s("c"), cat);
    config.insert_category(s("d"), Category::empty());
    assert_eq!(config.get_repo("c", "a").unwrap().path.as_deref(), Some("/three/"));
    assert_eq!(config.get_link("c", "l").unwrap().tx, "/t");
    config.insert_category(s("c"), Category::empty());
    assert_eq!(config.categories.len(), 2);
    assert_eq!(config.categories[0].0, "c");
    assert!(config.get_repo("c", "a").is_none());
}

fn sample() -> Config {
    Config {
        categories: vec![
            (
                s("config"),
                Category {
                    flags: None,
                    repos: Some(vec![
                        (s("qmk_firmware"), repo("qmk_firmware", "/home/ces/org/src/git/", None)),
                        (s("seidr"), repo("seidr", "/home/ces/org/src/git/", None)),
                    ]),
                    links: None,
                },
            ),
            (
                s("stuff"),
                Category {
                    flags: None,
                    repos: None,
                    links: Some(vec![
                        (s("seidr"), link("seidr", "/home/ces/.dots/seidr", "/home/ces/.config/seidr")),
                        (s("gg"), link("gg", "/home/ces/.dots/gg", "/home/ces/.config/gg")),
                    ]),
                },
            ),
            (
                s("more"),
                Category {
                    flags: None,
                    repos: Some(vec![]),
                    links: Some(vec![(s("starship"), link("starship", "/d/starship.toml", "/c/starship.toml"))]),
                },
            ),
        ],
    }
}

#[test]
fn get_repo_finds_by_category_and_name() {
    let config = sample();
    let r = config.get_repo("config", "qmk_firmware").expect("repo");
    assert_eq!(r.name.as_deref(), Some("qmk_firmware"));
    assert_eq!(r.path.as_deref(), Some("/home/ces/org/src/git/"));
    assert_eq!(r.work_dir().as_deref(), Some("/home/ces/org/src/git/qmk_firmware"));
}

#[test]
fn get_repo_missing_category_repo_or_list() {
    let config = sample();
    assert!(config.get_repo("nope", "qmk_firmware").is_none());
    assert!(config.get_repo("config", "nope").is_none());
    assert!(config.get_repo("stuff", "seidr").is_none());
}

#[test]
fn get_link_finds_by_category_and_name() {
    let config = sample();
    let l = config.get_link("stuff", "seidr").expect("link");
    assert_eq!(l.name, "seidr");
    assert_eq!(l.tx, "/home/ces/.dots/seidr");
    assert_eq!(l.rx, "/home/ces/.config/seidr");
    assert!(config.get_link("config", "seidr").is_none());
    assert!(config.get_link("stuff", "nope").is_none());
}

#[test]
fn link_all_visits_links_in_order() {
    let config = sample();
    let names: Vec<&str> = config.link_all().iter().map(|l| l.name.as_str()).collect();
    assert_eq!(names, vec!["seidr", "gg", "starship"]);
}

#[test]
fn empty_config_has_no_work() {
    let config = Config { categories: Vec::new() };
    assert!(config.link_all().is_empty());
    assert!(config.pull_all().is_finished());
    assert!(config.quick("m").current().is_none());
}

#[test]
fn validator_of_git_repos() {
    let good = repo("a", "/tmp/", None);
    assert!(good.is_valid_kind());
    let mut no_name = repo("a", "/tmp/", None);
    no_name.name = None;
    assert!(!no_name.is_valid_kind());
    let mut no_url = repo("a", "/tmp/", None);
    no_url.url = None;
    assert!(!no_url.is_valid_kind());
    let mut no_kind = repo("a", "/tmp/", None);
    no_kind.kind = None;
    assert!(!no_kind.is_valid_kind());
}
