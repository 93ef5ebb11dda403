//! Repositories, the git operations they may perform, and the command each
//! operation runs.
use vstd::prelude::*;

use crate::capability::{flags_permit, flags_view, permits_flags, RepoFlags, RepoKinds};

verus! {

/// A git repository entry of the configuration.
#[derive(PartialEq, Eq, Debug)]
pub struct Repo {
    /// The name of the checkout directory.
    pub name: Option<String>,
    /// The parent directory of the checkout, ending with a separator.
    pub path: Option<String>,
    /// The remote to clone from.
    pub url: Option<String>,
    /// The kind of the entry.
    pub kind: Option<RepoKinds>,
    /// The capabilities of the repository; none at all when absent.
    pub flags: Option<Vec<RepoFlags>>,
}

/// One primitive git operation on a repository.
#[derive(PartialEq, Eq, Debug)]
pub enum GitOp {
    /// `git clone <url> <name>`, run in the parent directory.
    Clone,
    /// `git pull`.
    Pull,
    /// `git add .`.
    AddAll,
    /// `git commit`, which asks for a message in an editor.
    Commit,
    /// `git commit -m <message>`.
    CommitWithMsg(String),
    /// `git push`.
    Push,
}

/// A git invocation: the working directory, the arguments after `git`, and
/// whether the process needs the terminal (an editor) rather than captured
/// output.
#[derive(PartialEq, Eq, Debug)]
pub struct GitCommand {
    pub dir: String,
    pub args: Vec<String>,
    pub interactive: bool,
}

/// The view of a git invocation: directory, arguments and terminal use.
pub type CommandView = (Seq<char>, Seq<Seq<char>>, bool);

impl View for GitCommand {
    type V = CommandView;

    open spec fn view(&self) -> CommandView {
        (self.dir@, self.args@.map_values(|a: String| a@), self.interactive)
    }
}

/// The view of an optional git invocation.
pub open spec fn command_view(c: Option<GitCommand>) -> Option<CommandView> {
    match c {
        None => None,
        Some(cmd) => Some(cmd@),
    }
}

impl GitOp {
    /// The capability an operation needs.
    pub open spec fn flag_spec(&self) -> RepoFlags {
        match self {
            GitOp::Clone => RepoFlags::Clone,
            GitOp::Pull => RepoFlags::Pull,
            GitOp::AddAll => RepoFlags::Add,
            GitOp::Commit | GitOp::CommitWithMsg(_) => RepoFlags::Commit,
            GitOp::Push => RepoFlags::Push,
        }
    }

    #[verifier::when_used_as_spec(flag_spec)]
    pub fn flag(&self) -> (r: RepoFlags)
        ensures
            r == self.flag_spec(),
    {
        match self {
            GitOp::Clone => RepoFlags::Clone,
            GitOp::Pull => RepoFlags::Pull,
            GitOp::AddAll => RepoFlags::Add,
            GitOp::Commit | GitOp::CommitWithMsg(_) => RepoFlags::Commit,
            GitOp::Push => RepoFlags::Push,
        }
    }
}

impl Repo {
    /// Whether the repository's flags permit `op` (see [`crate::capability::grants`]).
    pub open spec fn permits_spec(&self, op: RepoFlags) -> bool {
        flags_permit(flags_view(self.flags), op)
    }

    /// Decides whether the repository may perform `op`; without flags it may
    /// perform nothing.
    #[verifier::when_used_as_spec(permits_spec)]
    pub fn permits(&self, op: RepoFlags) -> (r: bool)
        ensures
            r == self.permits_spec(op),
    {
        permits_flags(&self.flags, op)
    }

    /// The working directory of the checkout: the parent path followed by the name.
    pub open spec fn work_dir_spec(&self) -> Seq<char> {
        self.path->0@ + self.name->0@
    }

    /// The invocation `(dir, args, interactive)`, when the repository may
    /// perform operations needing `flag` and has a name, a path, and, if
    /// `needs_url`, a url; `None` otherwise.
    pub open spec fn gated(
        &self,
        flag: RepoFlags,
        needs_url: bool,
        dir: Seq<char>,
        args: Seq<Seq<char>>,
        interactive: bool,
    ) -> Option<CommandView> {
        if self.permits_spec(flag) && self.name is Some && self.path is Some && (needs_url
            ==> self.url is Some) {
            Some((dir, args, interactive))
        } else {
            None
        }
    }

    /// The invocation of `git commit -m <msg>` in the checkout, when permitted.
    pub open spec fn commit_msg_spec(&self, msg: Seq<char>) -> Option<CommandView> {
        self.gated(RepoFlags::Commit, false, self.work_dir_spec(), seq!["commit"@, "-m"@, msg], false)
    }

    /// The git invocation that `op` makes on this repository, or `None` when
    /// the repository may not perform it or lacks the fields to run it. A
    /// clone runs in the parent directory; every other operation runs in
    /// the checkout.
    pub open spec fn command_spec(&self, op: GitOp) -> Option<CommandView> {
        match op {
            GitOp::Clone => self.gated(
                RepoFlags::Clone,
                true,
                self.path->0@,
                seq!["clone"@, self.url->0@, self.name->0@],
                false,
            ),
            GitOp::Pull => self.gated(RepoFlags::Pull, false, self.work_dir_spec(), seq!["pull"@], false),
            GitOp::AddAll => self.gated(
                RepoFlags::Add,
                false,
                self.work_dir_spec(),
                seq!["add"@, "."@],
                false,
            ),
            GitOp::Commit => self.gated(
                RepoFlags::Commit,
                false,
                self.work_dir_spec(),
                seq!["commit"@],
                true,
            ),
            GitOp::CommitWithMsg(m) => self.commit_msg_spec(m@),
            GitOp::Push => self.gated(RepoFlags::Push, false, self.work_dir_spec(), seq!["push"@], false),
        }
    }

    /// The working directory of the checkout, when the entry has a path and a name.
    pub fn work_dir(&self) -> (r: Option<String>)
        ensures
            r is Some <==> (self.name is Some && self.path is Some),
            r is Some ==> r->0@ == self.work_dir_spec(),
    {
        match (&self.path, &self.name) {
            (Some(p), Some(n)) => {
                let mut d = p.clone();
                d.append(n.as_str());
                Some(d)
            },
            _ => None,
        }
    }

    /// The git invocation that `op` makes on this repository; `None` when the
    /// operation is not permitted (no process must be started) or when the
    /// entry lacks a field the invocation needs.
    pub fn command(&self, op: &GitOp) -> (r: Option<GitCommand>)
        ensures
            command_view(r) == self.command_spec(*op),
    {
        if !self.permits(op.flag()) {
            return None;
        }
        let dir = match self.work_dir() {
            Some(d) => d,
            None => return None,
        };
        let mut args: Vec<String> = Vec::new();
        let mut interactive = false;
        match op {
            GitOp::Clone => {
                match (&self.url, &self.name) {
                    (Some(u), Some(n)) => {
                        args.push(String::from_str("clone"));
                        args.push(u.clone());
                        args.push(n.clone());
                    },
                    _ => return None,
                }
                let parent = match &self.path {
                    Some(p) => p.clone(),
                    None => return None,
                };
                let cmd = GitCommand { dir: parent, args, interactive };
                assert(cmd@.1 =~= seq!["clone"@, self.url->0@, self.name->0@]);
                return Some(cmd);
            },
            GitOp::Pull => {
                args.push(String::from_str("pull"));
            },
            GitOp::AddAll => {
                args.push(String::from_str("add"));
                args.push(String::from_str("."));
            },
            GitOp::Commit => {
                args.push(String::from_str("commit"));
                interactive = true;
            },
            GitOp::CommitWithMsg(m) => {
                args.push(String::from_str("commit"));
                args.push(String::from_str("-m"));
                args.push(m.clone());
            },
            GitOp::Push => {
                args.push(String::from_str("push"));
            },
        }
        let cmd = GitCommand { dir, args, interactive };
        assert(cmd@ == self.command_spec(*op)->0);
        Some(cmd)
    }

    /// The clone invocation, when the repository may clone.
    pub fn clone(&self) -> (r: Option<GitCommand>)
        ensures
            command_view(r) == self.command_spec(GitOp::Clone),
    {
        self.command(&GitOp::Clone)
    }

    /// The pull invocation, when the repository may pull.
    pub fn pull(&self) -> (r: Option<GitCommand>)
        ensures
            command_view(r) == self.command_spec(GitOp::Pull),
    {
        self.command(&GitOp::Pull)
    }

    /// The invocation that stages every file, when the repository may add.
    pub fn add_all(&self) -> (r: Option<GitCommand>)
        ensures
            command_view(r) == self.command_spec(GitOp::AddAll),
    {
        self.command(&GitOp::AddAll)
    }

    /// The editor-driven commit invocation, when the repository may commit.
    pub fn commit(&self) -> (r: Option<GitCommand>)
        ensures
            command_view(r) == self.command_spec(GitOp::Commit),
    {
        self.command(&GitOp::Commit)
    }

    /// The commit invocation with message `msg`, when the repository may commit.
    pub fn commit_with_msg(&self, msg: &str) -> (r: Option<GitCommand>)
        ensures
            command_view(r) == self.commit_msg_spec(msg@),
    {
        let op = GitOp::CommitWithMsg(String::from_str(msg));
        self.command(&op)
    }

    /// Whether the entry's kind has a validator. Only plain git entries and
    /// entries without a kind have one.
    pub open spec fn has_validator(&self) -> bool {
        self.kind is None || self.kind == Some(RepoKinds::GitRepo)
    }

    /// Whether a plain git entry has a name, a path and a url.
    fn check_is_valid_gitrepo(&self) -> (r: bool)
        ensures
            r == (self.name is Some && self.path is Some && self.url is Some),
    {
        if self.name.is_none() {
            return false;
        }
        if self.path.is_none() {
            return false;
        }
        if self.url.is_none() {
            return false;
        }
        true
    }

    /// Whether the entry is a valid instance of its kind: a plain git entry
    /// with a name, a path and a url. An entry without a kind is not valid.
    pub fn is_valid_kind(&self) -> (r: bool)
        requires
            self.has_validator(),
        ensures
            r == (self.kind == Some(RepoKinds::GitRepo) && self.name is Some && self.path is Some
                && self.url is Some),
    {
        match self.kind {
            Some(RepoKinds::GitRepo) => self.check_is_valid_gitrepo(),
            _ => false,
        }
    }

    /// The push invocation, when the repository may push.
    pub fn push(&self) -> (r: Option<GitCommand>)
        ensures
            command_view(r) == self.command_spec(GitOp::Push),
    {
        self.command(&GitOp::Push)
    }
}

/// No operation starts a git process unless the repository's capabilities
/// permit it.
pub proof fn lemma_no_git_without_permission(repo: Repo, op: GitOp)
    ensures
        repo.command_spec(op) is Some ==> repo.permits_spec(op.flag_spec()),
{
}

/// An operation on a repository that has its name, path and url starts a git
/// process exactly when the repository's capabilities permit the operation;
/// otherwise it starts none and fails.
pub proof fn lemma_runs_git_iff_permitted(repo: Repo, op: GitOp)
    requires
        repo.name is Some,
        repo.path is Some,
        repo.url is Some,
    ensures
        repo.command_spec(op) is Some <==> repo.permits_spec(op.flag_spec()),
{
}

} // verus!
