//! Links, and the decisions that materialise one as a symlink.
//!
//! A link operation has three parts. The caller probes what stands at the
//! link's location (`rx`) and describes it as an [`RxState`]. [`Link::link`]
//! decides from that alone what to do: create the symlink, replace what is
//! there, or stop with a reason. The caller carries out a creation and hands
//! its success to [`Link::finish`], which gives the result of the operation.
use vstd::prelude::*;

verus! {

/// A declared symlink: `rx` is to become a symlink to the existing `tx`.
#[derive(PartialEq, Eq, Debug)]
pub struct Link {
    /// The name of the link.
    pub name: String,
    /// Where the symlink is to be made.
    pub rx: String,
    /// The existing file or directory the symlink points to.
    pub tx: String,
}

/// What stands at a link's location, as probed on disk.
#[derive(PartialEq, Eq, Debug)]
pub enum RxState {
    /// Nothing, not even a dangling symlink.
    Missing,
    /// A symlink that resolves: the canonical path it resolves to, and the
    /// canonical path of the link's `tx`.
    Symlink { resolved: String, tx_resolved: String },
    /// A symlink whose target does not exist.
    BrokenSymlink,
    /// A regular file, a directory, or anything else that is not a symlink.
    Occupied,
    /// Probing failed; the cause.
    ProbeFailed(String),
}

/// Why a link operation did not create a link. Each variant but `IoError`
/// holds `tx` and `rx`.
#[derive(PartialEq, Eq, Debug)]
pub enum LinkError {
    /// `rx` already is a symlink to `tx`; the operation counts as a success.
    AlreadyLinked(String, String),
    /// `rx` is a symlink to something else.
    DifferentLink(String, String),
    /// `rx` is a file, a directory or another non-symlink.
    FileExists(String, String),
    /// `rx` is a dangling symlink.
    BrokenSymlinkExists(String, String),
    /// Creating the symlink failed.
    FailedCreatingLink(String, String),
    /// Probing `rx` failed; the cause.
    IoError(String),
}

/// What a link operation is to do on disk.
#[derive(PartialEq, Eq, Debug)]
pub enum LinkAction {
    /// Create the symlink `rx` pointing to `tx`.
    Create,
    /// Remove what stands at `rx`, then create the symlink.
    Replace,
    /// Leave the disk as it is; the operation ends with this error.
    Stop(LinkError),
}

/// The text `Linking <tx> -> <rx>` followed by `tail`.
pub open spec fn linking_text(tx: Seq<char>, rx: Seq<char>, tail: Seq<char>) -> Seq<char> {
    "Linking "@ + tx + " -> "@ + rx + tail
}

fn linking(tx: &String, rx: &String, tail: &str) -> (r: String)
    ensures
        r@ == linking_text(tx@, rx@, tail@),
{
    let mut s = String::from_str("Linking ");
    s.append(tx.as_str());
    s.append(" -> ");
    s.append(rx.as_str());
    s.append(tail);
    s
}

impl LinkError {
    /// The message shown for the error.
    pub open spec fn message_spec(&self) -> Seq<char> {
        match self {
            LinkError::AlreadyLinked(tx, rx) => linking_text(
                tx@,
                rx@,
                " failed: file already linked"@,
            ),
            LinkError::DifferentLink(tx, rx) => linking_text(
                tx@,
                rx@,
                " failed: link to different file exists"@,
            ),
            LinkError::FileExists(tx, rx) => linking_text(tx@, rx@, " failed: file exists"@),
            LinkError::BrokenSymlinkExists(tx, rx) => linking_text(
                tx@,
                rx@,
                " failed: broken symlink"@,
            ),
            LinkError::FailedCreatingLink(tx, rx) => linking_text(tx@, rx@, " failed"@),
            LinkError::IoError(cause) => "IO Error: "@ + cause@,
        }
    }

    /// The message shown for the error.
    pub fn message(&self) -> (r: String)
        ensures
            r@ == self.message_spec(),
    {
        match self {
            LinkError::AlreadyLinked(tx, rx) => linking(tx, rx, " failed: file already linked"),
            LinkError::DifferentLink(tx, rx) => linking(
                tx,
                rx,
                " failed: link to different file exists",
            ),
            LinkError::FileExists(tx, rx) => linking(tx, rx, " failed: file exists"),
            LinkError::BrokenSymlinkExists(tx, rx) => linking(tx, rx, " failed: broken symlink"),
            LinkError::FailedCreatingLink(tx, rx) => linking(tx, rx, " failed"),
            LinkError::IoError(cause) => {
                let mut s = String::from_str("IO Error: ");
                s.append(cause.as_str());
                s
            },
        }
    }
}

/// Whether a link operation's result counts as a success: a link was created,
/// or the link was already in place.
pub open spec fn succeeded(r: Result<bool, LinkError>) -> bool {
    r is Ok || r matches Err(LinkError::AlreadyLinked(_, _))
}

/// Decides whether a link operation's result counts as a success.
pub fn link_succeeded(r: &Result<bool, LinkError>) -> (b: bool)
    ensures
        b == succeeded(*r),
{
    match r {
        Ok(_) => true,
        Err(LinkError::AlreadyLinked(_, _)) => true,
        Err(_) => false,
    }
}

impl Link {
    /// The decision for a probed state. A missing `rx` is created; a symlink
    /// that resolves where `tx` does is left as it is and reported as already
    /// linked; a dangling symlink, a symlink elsewhere and an occupied `rx`
    /// are left alone and reported, except that with `force` the last two are
    /// replaced; a failed probe is reported with its cause.
    pub open spec fn decide(&self, state: RxState, force: bool) -> LinkAction {
        match state {
            RxState::Missing => LinkAction::Create,
            RxState::Symlink { resolved, tx_resolved } => {
                if resolved@ == tx_resolved@ {
                    LinkAction::Stop(LinkError::AlreadyLinked(self.tx, self.rx))
                } else if force {
                    LinkAction::Replace
                } else {
                    LinkAction::Stop(LinkError::DifferentLink(self.tx, self.rx))
                }
            },
            RxState::BrokenSymlink => LinkAction::Stop(
                LinkError::BrokenSymlinkExists(self.tx, self.rx),
            ),
            RxState::Occupied => {
                if force {
                    LinkAction::Replace
                } else {
                    LinkAction::Stop(LinkError::FileExists(self.tx, self.rx))
                }
            },
            RxState::ProbeFailed(cause) => LinkAction::Stop(LinkError::IoError(cause)),
        }
    }

    /// The result of a link operation that took `action`, where `created`
    /// says whether the symlink was made (it is not read after a stop).
    pub open spec fn outcome(&self, action: LinkAction, created: bool) -> Result<bool, LinkError> {
        match action {
            LinkAction::Stop(e) => Err(e),
            _ => if created {
                Ok(true)
            } else {
                Err(LinkError::FailedCreatingLink(self.tx, self.rx))
            },
        }
    }

    /// What stands at `rx` after an operation that started from `before`,
    /// when the canonical path of `tx` is `p`: a created symlink resolves to
    /// `p`; otherwise nothing changed.
    pub open spec fn settled(&self, before: RxState, force: bool, created: bool, p: String) -> RxState {
        if created && !(self.decide(before, force) is Stop) {
            RxState::Symlink { resolved: p, tx_resolved: p }
        } else {
            before
        }
    }

    /// Decides what to do about the link, given what stands at `rx`.
    pub fn link(&self, state: &RxState, force: bool) -> (r: LinkAction)
        ensures
            r == self.decide(*state, force),
    {
        match state {
            RxState::Missing => LinkAction::Create,
            RxState::Symlink { resolved, tx_resolved } => {
                if *resolved == *tx_resolved {
                    LinkAction::Stop(LinkError::AlreadyLinked(self.tx.clone(), self.rx.clone()))
                } else if force {
                    LinkAction::Replace
                } else {
                    LinkAction::Stop(LinkError::DifferentLink(self.tx.clone(), self.rx.clone()))
                }
            },
            RxState::BrokenSymlink => LinkAction::Stop(
                LinkError::BrokenSymlinkExists(self.tx.clone(), self.rx.clone()),
            ),
            RxState::Occupied => {
                if force {
                    LinkAction::Replace
                } else {
                    LinkAction::Stop(LinkError::FileExists(self.tx.clone(), self.rx.clone()))
                }
            },
            RxState::ProbeFailed(cause) => LinkAction::Stop(LinkError::IoError(cause.clone())),
        }
    }

    /// The result of the operation that took `action`; `created` says whether
    /// the caller made the symlink. `Ok(true)` means a link was created.
    pub fn finish(&self, action: LinkAction, created: bool) -> (r: Result<bool, LinkError>)
        ensures
            r == self.outcome(action, created),
    {
        match action {
            LinkAction::Stop(e) => Err(e),
            _ => if created {
                Ok(true)
            } else {
                Err(LinkError::FailedCreatingLink(self.tx.clone(), self.rx.clone()))
            },
        }
    }
}

/// The link operation is conservative: when `rx` is occupied by a file or
/// directory, is a dangling symlink, or is a symlink to something other than
/// `tx`, and replacing is not forced, the operation leaves the disk untouched
/// and fails.
pub proof fn lemma_conflicts_left_alone(l: Link, state: RxState, created: bool)
    requires
        state is Occupied || state is BrokenSymlink || (state matches RxState::Symlink {
            resolved,
            tx_resolved,
        } && resolved@ != tx_resolved@),
    ensures
        l.decide(state, false) is Stop,
        l.settled(state, false, created, l.tx) == state,
        !succeeded(l.outcome(l.decide(state, false), created)),
{
}

/// Linking is idempotent: after an operation that succeeded, with `rx` now
/// resolving where `tx` does, a second operation leaves the disk untouched
/// and reports the link as already in place, which counts as a success.
pub proof fn lemma_link_idempotent(
    l: Link,
    first: RxState,
    force: bool,
    created: bool,
    p: String,
    created_again: bool,
)
    requires
        succeeded(l.outcome(l.decide(first, force), created)),
    ensures
        l.decide(l.settled(first, force, created, p), force) == LinkAction::Stop(
            LinkError::AlreadyLinked(l.tx, l.rx),
        ),
        succeeded(
            l.outcome(l.decide(l.settled(first, force, created, p), force), created_again),
        ),
{
}

} // verus!
