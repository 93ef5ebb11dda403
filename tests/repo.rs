use seidr::{GitOp, Repo, RepoFlags, RepoKinds};

fn repo(flags: Option<Vec<RepoFlags>>) -> Repo {
    Repo {
        name: Some("seidr".to_string()),
        path: Some("/home/ces/src/".to_string()),
        url: Some("git@github.com:cafkafk/seidr.git".to_string()),
        kind: Some(RepoKinds::GitRepo),
        flags,
    }
}

const OPS: [RepoFlags; 5] = [RepoFlags::Clone, RepoFlags::Pull, RepoFlags::Add, RepoFlags::Commit, RepoFlags::Push];

fn permitted(r: &Repo) -> Vec<RepoFlags> {
    OPS.iter().copied().filter(|op| r.permits(*op)).collect()
}

#[test]
fn no_flags_permit_nothing() {
    assert!(permitted(&repo(None)).is_empty());
    assert!(permitted(&repo(Some(vec![]))).is_empty());
}

#[test]
fn each_flag_permits_itself() {
    for op in OPS {
        assert_eq!(permitted(&repo(Some(vec![op]))), vec![op]);
    }
}

#[test]
fn quick_grants_add_commit_push() {
    assert_eq!(
        permitted(&repo(Some(vec![RepoFlags::Quick]))),
        vec![RepoFlags::Add, RepoFlags::Commit, RepoFlags::Push]
    );
}

#[test]
fn fast_grants_pull_add_commit_push_but_not_clone() {
    let r = repo(Some(vec![RepoFlags::Fast]));
    assert_eq!(
        permitted(&r),
        vec![RepoFlags::Pull, RepoFlags::Add, RepoFlags::Commit, RepoFlags::Push]
    );
    assert!(r.permits(RepoFlags::Quick));
    assert!(!repo(Some(vec![RepoFlags::Quick])).permits(RepoFlags::Fast));
}

#[test]
fn commands_of_each_operation() {
    let r = repo(Some(vec![RepoFlags::Clone, RepoFlags::Fast]));
    let c = r.clone().unwrap();
    assert_eq!(c.dir, "/home/ces/src/");
    assert_eq!(c.args, vec!["clone", "git@github.com:cafkafk/seidr.git", "seidr"]);
    assert!(!c.interactive);
    let c = r.pull().unwrap();
    assert_eq!(c.dir, "/home/ces/src/seidr");
    assert_eq!(c.args, vec!["pull"]);
    let c = r.add_all().unwrap();
    assert_eq!(c.args, vec!["add", "."]);
    let c = r.commit().unwrap();
    assert_eq!(c.args, vec!["commit"]);
    assert!(c.interactive);
    let c = r.commit_with_msg("quick commit").unwrap();
    assert_eq!(c.dir, "/home/ces/src/seidr");
    assert_eq!(c.args, vec!["commit", "-m", "quick commit"]);
    assert!(!c.interactive);
    let c = r.push().unwrap();
    assert_eq!(c.args, vec!["push"]);
}

#[test]
fn git_runs_exactly_when_permitted() {
    let all = [
        GitOp::Clone,
        GitOp::Pull,
        GitOp::AddAll,
        GitOp::Commit,
        GitOp::CommitWithMsg("m".to_string()),
        GitOp::Push,
    ];
    let flag_sets = vec![
        None,
        Some(vec![]),
        Some(vec![RepoFlags::Clone]),
        Some(vec![RepoFlags::Pull, RepoFlags::Push]),
        Some(vec![RepoFlags::Quick]),
        Some(vec![RepoFlags::Fast]),
    ];
    for flags in flag_sets {
        let r = repo(flags);
        for op in &all {
            assert_eq!(r.command(op).is_some(), r.permits(op.flag()));
        }
    }
}

#[test]
fn missing_fields_give_no_command() {
    let mut r = repo(Some(vec![RepoFlags::Clone, RepoFlags::Pull]));
    r.url = None;
    assert!(r.clone().is_none());
    assert!(r.pull().is_some());
    r.name = None;
    assert!(r.pull().is_none());
    assert!(r.work_dir().is_none());
}
