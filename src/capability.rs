//! Capability flags and the rule deciding which operations they permit.
use vstd::prelude::*;

verus! {

/// A capability tag on a repository, naming a kind of git operation it answers to.
#[derive(PartialEq, Eq, Structural, Debug, Clone, Copy, PartialOrd, Ord)]
pub enum RepoFlags {
    /// The repository answers to clone.
    Clone,
    /// The repository answers to pull.
    Pull,
    /// The repository answers to add.
    Add,
    /// The repository answers to commit.
    Commit,
    /// The repository answers to push.
    Push,
    /// Shorthand for `Add`, `Commit` and `Push`.
    Quick,
    /// Shorthand for `Pull`, `Add`, `Commit` and `Push` (and for `Quick`).
    Fast,
}

/// The kind of a repository entry.
#[derive(PartialEq, Eq, Structural, Debug, Clone, Copy)]
pub enum RepoKinds {
    GitRepo,
    GitHubRepo,
    GitLabRepo,
    GiteaRepo,
    UrlRepo,
    Link,
}

/// Whether holding the flag `held` permits the operation named by `op`.
///
/// A flag permits its own operation; `Fast` also permits `Pull` and `Quick`;
/// `Quick` and `Fast` also permit `Add`, `Commit` and `Push`. Nothing but
/// `Clone` itself permits `Clone`.
pub open spec fn grants(held: RepoFlags, op: RepoFlags) -> bool {
    held == op || match op {
        RepoFlags::Pull => held == RepoFlags::Fast,
        RepoFlags::Add | RepoFlags::Commit | RepoFlags::Push => held == RepoFlags::Quick || held
            == RepoFlags::Fast,
        RepoFlags::Quick => held == RepoFlags::Fast,
        _ => false,
    }
}

/// Whether a flag set permits `op`. An absent flag set permits nothing.
pub open spec fn flags_permit(flags: Option<Seq<RepoFlags>>, op: RepoFlags) -> bool {
    &&& flags is Some
    &&& exists|i: int| 0 <= i < flags->0.len() && grants(#[trigger] flags->0[i], op)
}

/// The view of an optional flag list.
pub open spec fn flags_view(flags: Option<Vec<RepoFlags>>) -> Option<Seq<RepoFlags>> {
    match flags {
        None => None,
        Some(v) => Some(v@),
    }
}

/// Executable form of [`grants`].
pub fn flag_grants(held: RepoFlags, op: RepoFlags) -> (r: bool)
    ensures
        r == grants(held, op),
{
    if held == op {
        return true;
    }
    match op {
        RepoFlags::Pull => held == RepoFlags::Fast,
        RepoFlags::Add | RepoFlags::Commit | RepoFlags::Push => held == RepoFlags::Quick || held
            == RepoFlags::Fast,
        RepoFlags::Quick => held == RepoFlags::Fast,
        _ => false,
    }
}

/// Decides whether an optional flag list permits `op`.
pub fn permits_flags(flags: &Option<Vec<RepoFlags>>, op: RepoFlags) -> (r: bool)
    ensures
        r == flags_permit(flags_view(*flags), op),
{
    match flags {
        None => false,
        Some(fs) => {
            assert(flags_view(*flags) == Some(fs@));
            let mut i: usize = 0;
            while i < fs.len()
                invariant
                    flags_view(*flags) == Some(fs@),
                    0 <= i <= fs.len(),
                    forall|j: int| 0 <= j < i ==> !grants(#[trigger] fs@[j], op),
                decreases fs.len() - i,
            {
                if flag_grants(fs[i], op) {
                    assert(grants(flags_view(*flags)->0[i as int], op));
                    return true;
                }
                i = i + 1;
            }
            false
        },
    }
}

} // verus!
