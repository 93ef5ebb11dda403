//! The pipeline runner: an ordered list of operations applied to every
//! repository, one repository and one step at a time.
//!
//! A [`Pipeline`] holds, for each repository in traversal order, one
//! [`Task`] per operation of the series, and a position. The caller runs the
//! current task's git command, if it has one, and reports the exit status
//! with [`Pipeline::advance`], which moves to the next task according to the
//! failure policy: continue-on-error visits every step of every repository;
//! stop-on-error abandons the rest of a repository's steps at its first
//! failed step and goes on with the next repository.
use vstd::prelude::*;

use crate::capability::RepoFlags;
use crate::repo::{command_view, CommandView, GitCommand, GitOp, Repo};

verus! {

/// One named operation of a series.
#[derive(PartialEq, Eq, Debug)]
pub struct SeriesItem {
    /// The name shown to the user.
    pub operation: String,
    /// The operation.
    pub action: GitOp,
}

/// One step of a pipeline: an operation on one repository.
#[derive(PartialEq, Eq, Debug)]
pub struct Task {
    /// The name of the repository.
    pub repo: String,
    /// The name of the operation.
    pub operation: String,
    /// Whether the repository's capabilities permit the operation.
    pub permitted: bool,
    /// The git invocation to run; `None` when the step fails without
    /// starting a process.
    pub command: Option<GitCommand>,
}

/// What a step of a series is: its name, the capability it needs, and the
/// invocation it makes on a given repository.
pub type StepSpec = (Seq<char>, RepoFlags, spec_fn(Repo) -> Option<CommandView>);

/// The step that a series item stands for.
pub open spec fn item_step(item: SeriesItem) -> StepSpec {
    (item.operation@, item.action.flag_spec(), |r: Repo| r.command_spec(item.action))
}

impl Task {
    /// Whether the task is the step `step` on the repository `repo` named `key`.
    pub open spec fn describes(&self, key: String, repo: Repo, step: StepSpec) -> bool {
        &&& self.repo@ == key@
        &&& self.operation@ == step.0
        &&& self.permitted == repo.permits_spec(step.1)
        &&& command_view(self.command) == (step.2)(repo)
    }

    /// Builds the task for the operation `item` on the repository `repo` named `key`.
    pub fn new(key: &String, repo: &Repo, item: &SeriesItem) -> (r: Task)
        ensures
            r.describes(*key, *repo, item_step(*item)),
    {
        Task {
            repo: key.clone(),
            operation: item.operation.clone(),
            permitted: repo.permits(item.action.flag()),
            command: repo.command(&item.action),
        }
    }
}

/// The position that follows step `step` of repository `repo`, in a series of
/// `steps` steps, when the step succeeded (`ok`) or failed.
pub open spec fn next_position(repo: nat, step: nat, steps: nat, stop_on_err: bool, ok: bool) -> (
    nat,
    nat,
) {
    if (stop_on_err && !ok) || step + 1 >= steps {
        (repo + 1, 0)
    } else {
        (repo, step + 1)
    }
}

/// The position reached from `start` when the steps taken have the outcomes
/// `outcomes`, in order.
pub open spec fn walk(start: (nat, nat), steps: nat, stop_on_err: bool, outcomes: Seq<bool>) -> (
    nat,
    nat,
)
    decreases outcomes.len(),
{
    if outcomes.len() == 0 {
        start
    } else {
        let p = walk(start, steps, stop_on_err, outcomes.drop_last());
        next_position(p.0, p.1, steps, stop_on_err, outcomes.last())
    }
}

/// While the steps before `j` of a repository have not stopped it, the walk
/// that starts at its first step is at its step `j` after them.
proof fn lemma_walk_within_repo(
    repo: nat,
    steps: nat,
    stop_on_err: bool,
    outcomes: Seq<bool>,
    j: int,
)
    requires
        0 <= j < steps,
        j <= outcomes.len(),
        forall|i: int| 0 <= i < j ==> !stop_on_err || #[trigger] outcomes[i],
    ensures
        walk((repo, 0), steps, stop_on_err, outcomes.take(j)) == (repo, j as nat),
    decreases j,
{
    if j > 0 {
        lemma_walk_within_repo(repo, steps, stop_on_err, outcomes, j - 1);
        assert(outcomes.take(j).drop_last() =~= outcomes.take(j - 1));
        assert(outcomes.take(j).last() == outcomes[j - 1]);
    } else {
        assert(outcomes.take(0) =~= Seq::<bool>::empty());
    }
}

/// Stop-on-error abandons a repository at its first failed step: when steps
/// `0..k` of a repository succeed and step `k` fails, the pipeline is at
/// step `j` of the repository after `j` outcomes for every `j <= k`, and
/// after `k + 1` outcomes at the first step of the next repository, so the
/// steps after `k` never run.
pub proof fn lemma_stop_on_error_abandons_repository(
    repo: nat,
    steps: nat,
    outcomes: Seq<bool>,
    k: int,
)
    requires
        0 <= k < steps,
        k < outcomes.len(),
        forall|i: int| 0 <= i < k ==> #[trigger] outcomes[i],
        !outcomes[k],
    ensures
        forall|j: int|
            0 <= j <= k ==> #[trigger] walk((repo, 0), steps, true, outcomes.take(j)) == (
                repo,
                j as nat,
            ),
        walk((repo, 0), steps, true, outcomes.take(k + 1)) == (repo + 1, 0nat),
{
    assert forall|j: int| 0 <= j <= k implies #[trigger] walk(
        (repo, 0),
        steps,
        true,
        outcomes.take(j),
    ) == (repo, j as nat) by {
        lemma_walk_within_repo(repo, steps, true, outcomes, j);
    }
    lemma_walk_within_repo(repo, steps, true, outcomes, k);
    assert(outcomes.take(k + 1).drop_last() =~= outcomes.take(k));
    assert(outcomes.take(k + 1).last() == outcomes[k]);
}

/// Continue-on-error runs every step of a repository whatever the outcomes:
/// after `j` outcomes the pipeline is at step `j` of the repository, and
/// after all of its steps at the first step of the next repository.
pub proof fn lemma_continue_on_error_runs_every_step(repo: nat, steps: nat, outcomes: Seq<bool>)
    requires
        0 < steps <= outcomes.len(),
    ensures
        forall|j: int|
            0 <= j < steps ==> #[trigger] walk((repo, 0), steps, false, outcomes.take(j)) == (
                repo,
                j as nat,
            ),
        walk((repo, 0), steps, false, outcomes.take(steps as int)) == (repo + 1, 0nat),
{
    assert forall|j: int| 0 <= j < steps implies #[trigger] walk(
        (repo, 0),
        steps,
        false,
        outcomes.take(j),
    ) == (repo, j as nat) by {
        lemma_walk_within_repo(repo, steps, false, outcomes, j);
    }
    let last = steps - 1;
    lemma_walk_within_repo(repo, steps, false, outcomes, last);
    assert(outcomes.take(steps as int).drop_last() =~= outcomes.take(last));
}

/// A series of operations in progress over a sequence of repositories.
pub struct Pipeline {
    tasks: Vec<Vec<Task>>,
    steps: usize,
    stop_on_err: bool,
    repo: usize,
    step: usize,
}

impl Pipeline {
    /// The tasks, one row per repository in traversal order, one task per step.
    pub closed spec fn tasks_spec(&self) -> Seq<Seq<Task>> {
        self.tasks@.map_values(|row: Vec<Task>| row@)
    }

    /// The number of steps of the series.
    pub closed spec fn steps_spec(&self) -> nat {
        self.steps as nat
    }

    /// Whether the pipeline abandons a repository at its first failed step.
    pub closed spec fn stops_on_error(&self) -> bool {
        self.stop_on_err
    }

    /// The current position: the repository, and the step within it.
    pub closed spec fn position(&self) -> (nat, nat) {
        (self.repo as nat, self.step as nat)
    }

    /// Every row has one task per step; the position is within the tasks,
    /// or just past the last repository when the pipeline is done.
    pub closed spec fn wf(&self) -> bool {
        &&& forall|i: int| 0 <= i < self.tasks@.len() ==> #[trigger] self.tasks@[i]@.len() == self.steps
        &&& self.repo <= self.tasks@.len()
        &&& self.repo < self.tasks@.len() ==> self.step < self.steps
        &&& self.repo == self.tasks@.len() ==> self.step == 0
    }

    /// Whether every repository has been dealt with.
    pub open spec fn is_done(&self) -> bool {
        self.position().0 >= self.tasks_spec().len()
    }

    /// The current task.
    pub open spec fn current_spec(&self) -> Task {
        self.tasks_spec()[self.position().0 as int][self.position().1 as int]
    }

    /// A pipeline at its first task, over `tasks`, whose rows all have `steps` tasks.
    pub fn new(tasks: Vec<Vec<Task>>, steps: usize, stop_on_err: bool) -> (r: Pipeline)
        requires
            forall|i: int| 0 <= i < tasks@.len() ==> #[trigger] tasks@[i]@.len() == steps,
        ensures
            r.wf(),
            r.tasks_spec() == tasks@.map_values(|row: Vec<Task>| row@),
            r.steps_spec() == steps,
            r.stops_on_error() == stop_on_err,
            r.position() == (if steps == 0 {
                (tasks@.len() as nat, 0nat)
            } else {
                (0nat, 0nat)
            }),
    {
        let repo = if steps == 0 {
            tasks.len()
        } else {
            0
        };
        Pipeline { tasks, steps, stop_on_err, repo, step: 0 }
    }

    /// Whether every repository has been dealt with.
    pub fn is_finished(&self) -> (r: bool)
        requires
            self.wf(),
        ensures
            r == self.is_done(),
    {
        self.repo >= self.tasks.len()
    }

    /// The current task, or `None` when the pipeline is done.
    pub fn current(&self) -> (r: Option<&Task>)
        requires
            self.wf(),
        ensures
            r is None <==> self.is_done(),
            r is Some ==> *r->0 == self.current_spec(),
    {
        if self.repo >= self.tasks.len() {
            None
        } else {
            Some(&self.tasks[self.repo][self.step])
        }
    }

    /// Records the outcome of the current task and moves on. `exit_ok` says
    /// whether its git process exited with status 0; a task without a
    /// command fails whatever it says. Returns whether the step succeeded.
    pub fn advance(&mut self, exit_ok: bool) -> (ok: bool)
        requires
            old(self).wf(),
            !old(self).is_done(),
        ensures
            final(self).wf(),
            ok == (old(self).current_spec().command is Some && exit_ok),
            final(self).tasks_spec() == old(self).tasks_spec(),
            final(self).steps_spec() == old(self).steps_spec(),
            final(self).stops_on_error() == old(self).stops_on_error(),
            final(self).position() == next_position(
                old(self).position().0,
                old(self).position().1,
                old(self).steps_spec(),
                old(self).stops_on_error(),
                ok,
            ),
    {
        assert(self.tasks_spec().len() == self.tasks@.len());
        let n = self.tasks.len();
        assert(self.repo < n);
        let ok = self.tasks[self.repo][self.step].command.is_some() && exit_ok;
        if (self.stop_on_err && !ok) || self.step + 1 >= self.steps {
            self.repo = self.repo + 1;
            self.step = 0;
        } else {
            self.step = self.step + 1;
        }
        ok
    }
}

} // verus!
