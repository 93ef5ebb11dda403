//! The configuration aggregate: categories of repositories and links, with
//! the batch operations over all of them.
//!
//! Categories, repositories and links are kept as lists of `(name, value)`
//! entries in the order of the configuration; traversal follows that order.
use vstd::prelude::*;

use crate::capability::RepoFlags;
use crate::link::Link;
use crate::pipeline::{item_step, Pipeline, SeriesItem, StepSpec, Task};
use crate::repo::{GitOp, Repo};

verus! {

/// A named group of repositories and links.
#[derive(PartialEq, Eq, Debug)]
pub struct Category {
    /// Category-level flags; reserved, they change nothing.
    pub flags: Option<Vec<RepoFlags>>,
    /// The repositories of the category, by name.
    pub repos: Option<Vec<(String, Repo)>>,
    /// The links of the category, by name.
    pub links: Option<Vec<(String, Link)>>,
}

impl Category {
    /// Repository names are unique within the category, and so are link names.
    pub open spec fn wf(&self) -> bool {
        keys_unique(repos_of(*self)) && keys_unique(links_of(*self))
    }

    /// A category without flags, repositories or links.
    pub fn empty() -> (r: Category)
        ensures
            r.wf(),
            r.flags is None,
            r.repos is None,
            r.links is None,
    {
        Category { flags: None, repos: None, links: None }
    }

    /// Sets the repository named `name`, replacing one of that name in place
    /// or adding it after the others.
    pub fn insert_repo(&mut self, name: String, repo: Repo)
        requires
            old(self).wf(),
        ensures
            final(self).wf(),
            find(repos_of(*final(self)), name@) == Some(repo),
            forall|k: Seq<char>|
                k != name@ ==> #[trigger] find(repos_of(*final(self)), k) == find(
                    repos_of(*old(self)),
                    k,
                ),
            final(self).flags == old(self).flags,
            final(self).links == old(self).links,
    {
        let mut repos = match self.repos.take() {
            Some(v) => v,
            None => Vec::new(),
        };
        assert(repos@ == repos_of(*old(self)));
        insert_entry(&mut repos, name, repo);
        self.repos = Some(repos);
    }

    /// Sets the link named `name`, replacing one of that name in place or
    /// adding it after the others.
    pub fn insert_link(&mut self, name: String, link: Link)
        requires
            old(self).wf(),
        ensures
            final(self).wf(),
            find(links_of(*final(self)), name@) == Some(link),
            forall|k: Seq<char>|
                k != name@ ==> #[trigger] find(links_of(*final(self)), k) == find(
                    links_of(*old(self)),
                    k,
                ),
            final(self).flags == old(self).flags,
            final(self).repos == old(self).repos,
    {
        let mut links = match self.links.take() {
            Some(v) => v,
            None => Vec::new(),
        };
        assert(links@ == links_of(*old(self)));
        insert_entry(&mut links, name, link);
        self.links = Some(links);
    }
}

/// The whole configuration: the categories, by name.
#[derive(PartialEq, Eq, Debug)]
pub struct Config {
    pub categories: Vec<(String, Category)>,
}

/// The repository entries of a category; none when it has no repository list.
pub open spec fn repos_of(c: Category) -> Seq<(String, Repo)> {
    match c.repos {
        Some(v) => v@,
        None => Seq::empty(),
    }
}

/// The link entries of a category; none when it has no link list.
pub open spec fn links_of(c: Category) -> Seq<(String, Link)> {
    match c.links {
        Some(v) => v@,
        None => Seq::empty(),
    }
}

/// The repository entries of all categories, category after category.
pub open spec fn repo_entries(cats: Seq<(String, Category)>) -> Seq<(String, Repo)>
    decreases cats.len(),
{
    if cats.len() == 0 {
        Seq::empty()
    } else {
        repo_entries(cats.drop_last()) + repos_of(cats.last().1)
    }
}

/// The link entries of all categories, category after category.
pub open spec fn link_entries(cats: Seq<(String, Category)>) -> Seq<(String, Link)>
    decreases cats.len(),
{
    if cats.len() == 0 {
        Seq::empty()
    } else {
        link_entries(cats.drop_last()) + links_of(cats.last().1)
    }
}

/// The value of the first entry named `key`, if any.
pub open spec fn find<V>(entries: Seq<(String, V)>, key: Seq<char>) -> Option<V>
    decreases entries.len(),
{
    if entries.len() == 0 {
        None
    } else if entries[0].0@ == key {
        Some(entries[0].1)
    } else {
        find(entries.subrange(1, entries.len() as int), key)
    }
}

/// Whether no two entries share a name.
pub open spec fn keys_unique<V>(entries: Seq<(String, V)>) -> bool {
    forall|i: int, j: int| 0 <= i < j < entries.len() ==> entries[i].0@ != entries[j].0@
}

/// A lookup finds nothing exactly when no entry has the name; when names are
/// unique, it finds the value of the one entry that has it.
pub proof fn lemma_find<V>(entries: Seq<(String, V)>, key: Seq<char>)
    ensures
        find(entries, key) is None <==> forall|i: int|
            0 <= i < entries.len() ==> #[trigger] entries[i].0@ != key,
        keys_unique(entries) ==> forall|i: int|
            0 <= i < entries.len() && #[trigger] entries[i].0@ == key ==> find(entries, key) == Some(
                entries[i].1,
            ),
    decreases entries.len(),
{
    if entries.len() > 0 {
        let rest = entries.subrange(1, entries.len() as int);
        lemma_find(rest, key);
        assert forall|i: int| 1 <= i < entries.len() implies #[trigger] entries[i] == rest[i - 1] by {}
        if keys_unique(entries) {
            assert(keys_unique(rest)) by {
                assert forall|i: int, j: int| 0 <= i < j < rest.len() implies rest[i].0@
                    != rest[j].0@ by {
                    assert(rest[i] == entries[i + 1]);
                    assert(rest[j] == entries[j + 1]);
                }
            }
        }
        if find(entries, key) is None {
            assert forall|i: int| 0 <= i < entries.len() implies #[trigger] entries[i].0@ != key by {
                if i > 0 {
                    assert(rest[i - 1] == entries[i]);
                }
            }
        }
    }
}

/// Gives the entry named `key` the value `value`: in place when an entry has
/// that name, at the end otherwise. Names stay unique and every other name
/// keeps its value.
fn insert_entry<V>(entries: &mut Vec<(String, V)>, key: String, value: V)
    requires
        keys_unique(old(entries)@),
    ensures
        keys_unique(final(entries)@),
        find(final(entries)@, key@) == Some(value),
        forall|k: Seq<char>| k != key@ ==> #[trigger] find(final(entries)@, k) == find(old(entries)@, k),
        forall|j: int|
            0 <= j < final(entries)@.len() ==> #[trigger] final(entries)@[j] == (key, value) || (j
                < old(entries)@.len() && final(entries)@[j] == old(entries)@[j]),
{
    let ghost before = entries@;
    let ghost kv = key@;
    let mut i: usize = 0;
    let mut at: Option<usize> = None;
    while i < entries.len()
        invariant
            entries@ == before,
            key@ == kv,
            0 <= i <= before.len(),
            at is None ==> forall|j: int| 0 <= j < i ==> #[trigger] before[j].0@ != kv,
            at is Some ==> at->0 < before.len() && before[at->0 as int].0@ == kv,
        ensures
            entries@ == before,
            at is None ==> forall|j: int| 0 <= j < before.len() ==> #[trigger] before[j].0@ != kv,
            at is Some ==> at->0 < before.len() && before[at->0 as int].0@ == kv,
        decreases before.len() - i,
    {
        if entries[i].0 == key {
            at = Some(i);
            break;
        }
        i = i + 1;
    }
    match at {
        Some(idx) => {
            entries[idx] = (key, value);
        },
        None => {
            entries.push((key, value));
        },
    }
    let ghost after = entries@;
    // the names are the same as before, with `key` added when it was new
    assert forall|j: int| 0 <= j < after.len() && j < before.len() && after[j].0@ != kv implies after[j]
        == before[j] by {}
    assert(keys_unique(after)) by {
        if at is Some {
            assert forall|j: int| 0 <= j < after.len() implies #[trigger] after[j].0@ == before[j].0@ by {}
        } else {
            assert forall|a: int, b: int| 0 <= a < b < after.len() implies after[a].0@
                != after[b].0@ by {
                assert(after[a] == before[a]);
                if b < before.len() {
                    assert(after[b] == before[b]);
                }
            }
        }
    }
    proof {
        lemma_find(after, kv);
        let w: int = match at {
            Some(idx) => idx as int,
            None => before.len() as int,
        };
        assert(after[w].0@ == kv);
    }
    assert forall|k: Seq<char>| k != kv implies #[trigger] find(after, k) == find(before, k) by {
        lemma_find(after, k);
        lemma_find(before, k);
        if find(before, k) is None {
            assert forall|j: int| 0 <= j < after.len() implies #[trigger] after[j].0@ != k by {
                if j < before.len() && after[j].0@ != kv {
                    assert(before[j].0@ != k);
                }
            }
        } else {
            let j = choose|j: int| 0 <= j < before.len() && #[trigger] before[j].0@ == k;
            assert(after[j] == before[j]);
        }
    }
}

/// The value an optional reference points to.
pub open spec fn deref_opt<V>(o: Option<&V>) -> Option<V> {
    match o {
        Some(v) => Some(*v),
        None => None,
    }
}

/// The repository named `repo` in the category named `cat`, if both exist.
pub open spec fn lookup_repo(cats: Seq<(String, Category)>, cat: Seq<char>, repo: Seq<char>) -> Option<
    Repo,
> {
    match find(cats, cat) {
        Some(c) => find(repos_of(c), repo),
        None => None,
    }
}

/// The link named `link` in the category named `cat`, if both exist.
pub open spec fn lookup_link(cats: Seq<(String, Category)>, cat: Seq<char>, link: Seq<char>) -> Option<
    Link,
> {
    match find(cats, cat) {
        Some(c) => find(links_of(c), link),
        None => None,
    }
}

/// Whether `rows` has one row per entry, each with one task per step, the
/// task of row `i` and step `j` being step `j` on entry `i`.
pub open spec fn rows_describe(
    rows: Seq<Seq<Task>>,
    entries: Seq<(String, Repo)>,
    steps: Seq<StepSpec>,
) -> bool {
    &&& rows.len() == entries.len()
    &&& forall|i: int| 0 <= i < rows.len() ==> #[trigger] rows[i].len() == steps.len()
    &&& forall|i: int, j: int|
        0 <= i < rows.len() && 0 <= j < steps.len() ==> #[trigger] rows[i][j].describes(
            entries[i].0,
            entries[i].1,
            steps[j],
        )
}

/// The step named `name` that performs `op`.
pub open spec fn op_step(name: Seq<char>, op: GitOp) -> StepSpec {
    (name, op.flag_spec(), |r: Repo| r.command_spec(op))
}

/// The step named `commit` that commits with the message `msg`.
pub open spec fn commit_msg_step(msg: Seq<char>) -> StepSpec {
    ("commit"@, RepoFlags::Commit, |r: Repo| r.commit_msg_spec(msg))
}

/// Pull, add everything, commit with `msg`, push.
pub open spec fn sync_steps(msg: Seq<char>) -> Seq<StepSpec> {
    seq![
        op_step("pull"@, GitOp::Pull),
        op_step("add"@, GitOp::AddAll),
        commit_msg_step(msg),
        op_step("push"@, GitOp::Push),
    ]
}

proof fn lemma_rows_push(
    rows: Seq<Seq<Task>>,
    entries: Seq<(String, Repo)>,
    steps: Seq<StepSpec>,
    row: Seq<Task>,
    entry: (String, Repo),
)
    requires
        rows_describe(rows, entries, steps),
        row.len() == steps.len(),
        forall|j: int| 0 <= j < steps.len() ==> #[trigger] row[j].describes(entry.0, entry.1, steps[j]),
    ensures
        rows_describe(rows.push(row), entries.push(entry), steps),
{
    let rows2 = rows.push(row);
    let entries2 = entries.push(entry);
    assert forall|i: int, j: int| 0 <= i < rows2.len() && 0 <= j < steps.len() implies #[trigger] rows2[i][j].describes(
        entries2[i].0,
        entries2[i].1,
        steps[j],
    ) by {
        if i < rows.len() {
            assert(rows2[i] == rows[i]);
            assert(entries2[i] == entries[i]);
        }
    }
    assert forall|i: int| 0 <= i < rows2.len() implies #[trigger] rows2[i].len() == steps.len() by {
        if i < rows.len() {
            assert(rows2[i] == rows[i]);
        }
    }
}

/// The tasks of the series `series` on the repository `repo` named `key`.
fn tasks_for(key: &String, repo: &Repo, series: &Vec<SeriesItem>) -> (r: Vec<Task>)
    ensures
        r@.len() == series@.len(),
        forall|j: int|
            0 <= j < series@.len() ==> #[trigger] r@[j].describes(*key, *repo, item_step(series@[j])),
{
    let mut row: Vec<Task> = Vec::new();
    let mut j: usize = 0;
    while j < series.len()
        invariant
            0 <= j <= series@.len(),
            row@.len() == j,
            forall|k: int|
                0 <= k < j ==> #[trigger] row@[k].describes(*key, *repo, item_step(series@[k])),
        decreases series@.len() - j,
    {
        row.push(Task::new(key, repo, &series[j]));
        j = j + 1;
    }
    row
}

/// Finds the value of the first entry named `key`.
fn find_entry<'a, V>(entries: &'a Vec<(String, V)>, key: &String) -> (r: Option<&'a V>)
    ensures
        deref_opt(r) == find(entries@, key@),
{
    let mut i: usize = 0;
    assert(entries@.subrange(0, entries@.len() as int) =~= entries@);
    while i < entries.len()
        invariant
            0 <= i <= entries@.len(),
            find(entries@, key@) == find(entries@.subrange(i as int, entries@.len() as int), key@),
        decreases entries@.len() - i,
    {
        let ghost rest = entries@.subrange(i as int, entries@.len() as int);
        if entries[i].0 == *key {
            return Some(&entries[i].1);
        }
        assert(rest.subrange(1, rest.len() as int) =~= entries@.subrange(
            i + 1,
            entries@.len() as int,
        ));
        i = i + 1;
    }
    None
}

impl Config {
    /// Category names are unique, and so are the repository names and the
    /// link names within each category.
    pub open spec fn wf(&self) -> bool {
        &&& keys_unique(self.categories@)
        &&& forall|i: int| 0 <= i < self.categories@.len() ==> (#[trigger] self.categories@[i]).1.wf()
    }

    /// A configuration without categories.
    pub fn empty() -> (r: Config)
        ensures
            r.wf(),
            r.categories@.len() == 0,
    {
        Config { categories: Vec::new() }
    }

    /// Sets the category named `name`, replacing one of that name in place
    /// or adding it after the others.
    pub fn insert_category(&mut self, name: String, category: Category)
        requires
            old(self).wf(),
            category.wf(),
        ensures
            final(self).wf(),
            find(final(self).categories@, name@) == Some(category),
            forall|k: Seq<char>|
                k != name@ ==> #[trigger] find(final(self).categories@, k) == find(
                    old(self).categories@,
                    k,
                ),
    {
        let ghost c = category;
        insert_entry(&mut self.categories, name, category);
        assert forall|i: int| 0 <= i < self.categories@.len() implies (
        #[trigger] self.categories@[i]).1.wf() by {
            if self.categories@[i].1 != c {
                assert(self.categories@[i] == old(self).categories@[i]);
            }
        }
    }

    /// The repository entries of the configuration, in traversal order.
    pub open spec fn repo_entries_spec(&self) -> Seq<(String, Repo)> {
        repo_entries(self.categories@)
    }

    /// The link entries of the configuration, in traversal order.
    pub open spec fn link_entries_spec(&self) -> Seq<(String, Link)> {
        link_entries(self.categories@)
    }

    /// Whether `p` is the pipeline, at its start, that applies `steps` in
    /// order to every repository of the configuration in traversal order,
    /// stopping a repository's steps at its first failure if `stop_on_err`.
    pub open spec fn plans(&self, p: Pipeline, steps: Seq<StepSpec>, stop_on_err: bool) -> bool {
        &&& p.wf()
        &&& p.stops_on_error() == stop_on_err
        &&& p.steps_spec() == steps.len()
        &&& rows_describe(p.tasks_spec(), self.repo_entries_spec(), steps)
        &&& p.position() == if steps.len() == 0 {
            (p.tasks_spec().len(), 0nat)
        } else {
            (0nat, 0nat)
        }
    }

    /// The pipeline that applies `series` to every repository of every
    /// category; with `break_on_err`, a repository's remaining steps are
    /// abandoned at its first failed step. Categories without a repository
    /// list contribute nothing.
    pub fn all_on_all(&self, series: &Vec<SeriesItem>, break_on_err: bool) -> (r: Pipeline)
        ensures
            self.plans(r, series@.map_values(|it: SeriesItem| item_step(it)), break_on_err),
    {
        let ghost steps = series@.map_values(|it: SeriesItem| item_step(it));
        let ghost cats = self.categories@;
        let mut rows: Vec<Vec<Task>> = Vec::new();
        let mut i: usize = 0;
        assert(cats.take(0) =~= Seq::<(String, Category)>::empty());
        assert(rows@.map_values(|row: Vec<Task>| row@) =~= Seq::<Seq<Task>>::empty());
        while i < self.categories.len()
            invariant
                0 <= i <= cats.len(),
                cats == self.categories@,
                steps == series@.map_values(|it: SeriesItem| item_step(it)),
                rows_describe(
                    rows@.map_values(|row: Vec<Task>| row@),
                    repo_entries(cats.take(i as int)),
                    steps,
                ),
            decreases cats.len() - i,
        {
            let ghost base = repo_entries(cats.take(i as int));
            assert(cats.take(i + 1).drop_last() =~= cats.take(i as int));
            assert(cats.take(i + 1).last() == cats[i as int]);
            match &self.categories[i].1.repos {
                Some(repos) => {
                    let mut j: usize = 0;
                    assert(base + repos@.take(0) =~= base);
                    while j < repos.len()
                        invariant
                            0 <= j <= repos@.len(),
                            steps == series@.map_values(|it: SeriesItem| item_step(it)),
                            rows_describe(
                                rows@.map_values(|row: Vec<Task>| row@),
                                base + repos@.take(j as int),
                                steps,
                            ),
                        decreases repos@.len() - j,
                    {
                        let row = tasks_for(&repos[j].0, &repos[j].1, series);
                        let ghost old_rows = rows@.map_values(|row: Vec<Task>| row@);
                        proof {
                            lemma_rows_push(
                                old_rows,
                                base + repos@.take(j as int),
                                steps,
                                row@,
                                repos@[j as int],
                            );
                        }
                        rows.push(row);
                        assert(rows@.map_values(|row: Vec<Task>| row@) =~= old_rows.push(row@));
                        assert(base + repos@.take(j + 1) =~= (base + repos@.take(j as int)).push(
                            repos@[j as int],
                        ));
                        j = j + 1;
                    }
                    assert(repos@.take(j as int) =~= repos@);
                },
                None => {
                    assert(base + repos_of(cats[i as int].1) =~= base);
                },
            }
            i = i + 1;
        }
        assert(cats.take(i as int) =~= cats);
        assert forall|k: int| 0 <= k < rows@.len() implies #[trigger] rows@[k]@.len() == series@.len() by {
            assert(rows@.map_values(|row: Vec<Task>| row@)[k] == rows@[k]@);
        }
        Pipeline::new(rows, series.len(), break_on_err)
    }

    /// The continue-on-error pipeline of the single operation `action`, named `name`.
    fn single(&self, name: &str, action: GitOp) -> (r: Pipeline)
        ensures
            self.plans(r, seq![op_step(name@, action)], false),
    {
        let ghost a = action;
        let series = vec![SeriesItem { operation: String::from_str(name), action }];
        let r = self.all_on_all(&series, false);
        assert(series@.map_values(|it: SeriesItem| item_step(it)) =~= seq![op_step(name@, a)]);
        r
    }

    /// Pulls every repository, going on after failures.
    pub fn pull_all(&self) -> (r: Pipeline)
        ensures
            self.plans(r, seq![op_step("pull"@, GitOp::Pull)], false),
    {
        self.single("pull", GitOp::Pull)
    }

    /// Clones every repository, going on after failures.
    pub fn clone_all(&self) -> (r: Pipeline)
        ensures
            self.plans(r, seq![op_step("clone"@, GitOp::Clone)], false),
    {
        self.single("clone", GitOp::Clone)
    }

    /// Stages all files in every repository, going on after failures.
    pub fn add_all(&self) -> (r: Pipeline)
        ensures
            self.plans(r, seq![op_step("add"@, GitOp::AddAll)], false),
    {
        self.single("add", GitOp::AddAll)
    }

    /// Commits in every repository through the editor, going on after failures.
    pub fn commit_all(&self) -> (r: Pipeline)
        ensures
            self.plans(r, seq![op_step("commit"@, GitOp::Commit)], false),
    {
        self.single("commit", GitOp::Commit)
    }

    /// Commits in every repository with the message `msg`, going on after failures.
    pub fn commit_all_msg(&self, msg: &str) -> (r: Pipeline)
        ensures
            self.plans(r, seq![commit_msg_step(msg@)], false),
    {
        let series = vec![
            SeriesItem {
                operation: String::from_str("commit"),
                action: GitOp::CommitWithMsg(String::from_str(msg)),
            },
        ];
        let r = self.all_on_all(&series, false);
        assert(item_step(series@[0]).2 =~= commit_msg_step(msg@).2);
        assert(series@.map_values(|it: SeriesItem| item_step(it)) =~= seq![commit_msg_step(msg@)]);
        r
    }

    /// Pushes every repository, going on after failures.
    pub fn push_all(&self) -> (r: Pipeline)
        ensures
            self.plans(r, seq![op_step("push"@, GitOp::Push)], false),
    {
        self.single("push", GitOp::Push)
    }

    /// The series pull, add, commit with `msg`, push.
    fn sync_series(msg: &str) -> (r: Vec<SeriesItem>)
        ensures
            r@.map_values(|it: SeriesItem| item_step(it)) == sync_steps(msg@),
    {
        let series = vec![
            SeriesItem { operation: String::from_str("pull"), action: GitOp::Pull },
            SeriesItem { operation: String::from_str("add"), action: GitOp::AddAll },
            SeriesItem {
                operation: String::from_str("commit"),
                action: GitOp::CommitWithMsg(String::from_str(msg)),
            },
            SeriesItem { operation: String::from_str("push"), action: GitOp::Push },
        ];
        assert(item_step(series@[0]).2 =~= op_step("pull"@, GitOp::Pull).2);
        assert(item_step(series@[1]).2 =~= op_step("add"@, GitOp::AddAll).2);
        assert(item_step(series@[2]).2 =~= commit_msg_step(msg@).2);
        assert(item_step(series@[3]).2 =~= op_step("push"@, GitOp::Push).2);
        assert(series@.map_values(|it: SeriesItem| item_step(it)) =~= sync_steps(msg@));
        series
    }

    /// Pulls, stages everything, commits with `msg` and pushes, in every
    /// repository; every step runs whatever the earlier ones gave.
    pub fn quick(&self, msg: &str) -> (r: Pipeline)
        ensures
            self.plans(r, sync_steps(msg@), false),
    {
        let series = Self::sync_series(msg);
        self.all_on_all(&series, false)
    }

    /// Pulls, stages everything, commits with `msg` and pushes, in every
    /// repository; a repository's remaining steps are abandoned at its first
    /// failed step.
    pub fn fast(&self, msg: &str) -> (r: Pipeline)
        ensures
            self.plans(r, sync_steps(msg@), true),
    {
        let series = Self::sync_series(msg);
        self.all_on_all(&series, true)
    }

    /// The repository named `repo_name` in the category named `cat_name`.
    pub fn get_repo(&self, cat_name: &str, repo_name: &str) -> (r: Option<&Repo>)
        ensures
            deref_opt(r) == lookup_repo(self.categories@, cat_name@, repo_name@),
    {
        let cat_key = String::from_str(cat_name);
        let repo_key = String::from_str(repo_name);
        match find_entry(&self.categories, &cat_key) {
            Some(c) => match &c.repos {
                Some(repos) => find_entry(repos, &repo_key),
                None => None,
            },
            None => None,
        }
    }

    /// The link named `link_name` in the category named `cat_name`.
    pub fn get_link(&self, cat_name: &str, link_name: &str) -> (r: Option<&Link>)
        ensures
            deref_opt(r) == lookup_link(self.categories@, cat_name@, link_name@),
    {
        let cat_key = String::from_str(cat_name);
        let link_key = String::from_str(link_name);
        match find_entry(&self.categories, &cat_key) {
            Some(c) => match &c.links {
                Some(links) => find_entry(links, &link_key),
                None => None,
            },
            None => None,
        }
    }

    /// Every link of every category, in traversal order; each is to be
    /// resolved on its own, one link's failure never holding up another.
    pub fn link_all(&self) -> (r: Vec<&Link>)
        ensures
            r@.len() == self.link_entries_spec().len(),
            forall|k: int| 0 <= k < r@.len() ==> *#[trigger] r@[k] == self.link_entries_spec()[k].1,
    {
        let ghost cats = self.categories@;
        let mut out: Vec<&Link> = Vec::new();
        let mut i: usize = 0;
        assert(cats.take(0) =~= Seq::<(String, Category)>::empty());
        while i < self.categories.len()
            invariant
                0 <= i <= cats.len(),
                cats == self.categories@,
                out@.len() == link_entries(cats.take(i as int)).len(),
                forall|k: int|
                    0 <= k < out@.len() ==> *#[trigger] out@[k] == link_entries(
                        cats.take(i as int),
                    )[k].1,
            decreases cats.len() - i,
        {
            let ghost base = link_entries(cats.take(i as int));
            assert(cats.take(i + 1).drop_last() =~= cats.take(i as int));
            assert(cats.take(i + 1).last() == cats[i as int]);
            match &self.categories[i].1.links {
                Some(links) => {
                    let mut j: usize = 0;
                    while j < links.len()
                        invariant
                            0 <= j <= links@.len(),
                            out@.len() == base.len() + j,
                            forall|k: int|
                                0 <= k < out@.len() ==> *#[trigger] out@[k] == (base + links@)[k].1,
                        decreases links@.len() - j,
                    {
                        out.push(&links[j].1);
                        j = j + 1;
                    }
                },
                None => {
                    assert(base + links_of(cats[i as int].1) =~= base);
                },
            }
            i = i + 1;
        }
        assert(cats.take(i as int) =~= cats);
        out
    }
}

} // verus!
