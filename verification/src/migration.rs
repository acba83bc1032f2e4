//! The version catalog and the forward-only migration chain.
//!
//! The catalog is the fixed, ordered list of known schema versions, newest
//! last; each entry but the first carries the transformation that advances a
//! document from the immediately preceding schema to its own.  Version
//! identifiers are opaque tokens, ordered only by catalog position.
//! `resolve` computes, for a stored version, the ordered suffix of pending
//! migration steps together with the data each step leaves behind.

use vstd::prelude::*;

use crate::project::{duplicate_projects, projs_view, Project, ProjectV, Task, TaskV};

verus! {

/// One migration of the catalog: either the identity (the first entry has no
/// predecessor) or the backfill of one task field across the whole document.
#[derive(Clone, Copy, PartialEq, Eq, Structural)]
pub enum MigrationStep {
    /// No transformation.
    Identity,
    /// Give every task without a priority the default priority `0`.
    AddPriority,
    /// Give every task without a note the default empty note.
    AddNote,
}

pub struct Migration;

/// What `AddPriority` does to one task.
pub open spec fn spec_step_add_priority(t: TaskV) -> TaskV {
    TaskV { priority: if t.priority is None { Some(0u32) } else { t.priority }, ..t }
}

/// What `AddNote` does to one task.
pub open spec fn spec_step_add_note(t: TaskV) -> TaskV {
    TaskV { note: if t.note is None { Some(Seq::<char>::empty()) } else { t.note }, ..t }
}

/// What one migration step does to one task.
pub open spec fn spec_step_task(step: MigrationStep, t: TaskV) -> TaskV {
    match step {
        MigrationStep::Identity => t,
        MigrationStep::AddPriority => spec_step_add_priority(t),
        MigrationStep::AddNote => spec_step_add_note(t),
    }
}

/// What one migration step does to one project: it rewrites every task.
pub open spec fn spec_step_project(step: MigrationStep, p: ProjectV) -> ProjectV {
    ProjectV { tasks: p.tasks.map_values(|t: TaskV| spec_step_task(step, t)), ..p }
}

/// What one migration step does to a whole document.
pub open spec fn spec_step_data(step: MigrationStep, d: Seq<ProjectV>) -> Seq<ProjectV> {
    d.map_values(|p: ProjectV| spec_step_project(step, p))
}

impl Migration {
    /// The fixed catalog: version identifiers in order, oldest first, each
    /// with the migration that produces its schema from the previous one.
    pub open spec fn spec_catalog() -> Seq<(Seq<char>, MigrationStep)> {
        seq![
            ("6ad96"@, MigrationStep::Identity),
            ("911fc"@, MigrationStep::AddPriority),
            ("a4e1b"@, MigrationStep::AddNote),
        ]
    }

    /// The catalog's version identifiers, oldest first.
    pub open spec fn spec_version_ids() -> Seq<Seq<char>> {
        Self::spec_catalog().map_values(|e: (Seq<char>, MigrationStep)| e.0)
    }

    /// Position of a version identifier in the catalog.
    pub open spec fn spec_index_of(v: Seq<char>) -> Option<int> {
        if v == "6ad96"@ {
            Some(0int)
        } else if v == "911fc"@ {
            Some(1int)
        } else if v == "a4e1b"@ {
            Some(2int)
        } else {
            None
        }
    }

    /// The document after the catalog entries with indices in `(i, j]` have
    /// been applied in order, starting from `d`.
    pub open spec fn spec_chain(i: int, j: int, d: Seq<ProjectV>) -> Seq<ProjectV>
        decreases j - i,
    {
        if j <= i {
            d
        } else {
            spec_step_data(Self::spec_catalog()[j].1, Self::spec_chain(i, j - 1, d))
        }
    }

    /// The pending migration steps when the stored version sits at catalog
    /// index `i`: one step per later entry, in catalog order, each paired
    /// with the document as of that step.
    pub open spec fn spec_steps(i: int, d: Seq<ProjectV>) -> Seq<(Seq<char>, Seq<ProjectV>)> {
        Seq::new(
            (Self::spec_catalog().len() - 1 - i) as nat,
            |k: int| (Self::spec_catalog()[i + 1 + k].0, Self::spec_chain(i, i + 1 + k, d)),
        )
    }

    /// The pending migration steps for a stored version `v`: empty when `v`
    /// is the newest known version or not in the catalog at all, else the
    /// full suffix of the catalog after `v`.
    pub open spec fn spec_resolve(v: Seq<char>, d: Seq<ProjectV>) -> Seq<
        (Seq<char>, Seq<ProjectV>),
    > {
        match Self::spec_index_of(v) {
            Some(i) => Self::spec_steps(i, d),
            None => Seq::empty(),
        }
    }
}

/// The three catalog version identifiers are pairwise distinct.
proof fn lemma_ids_distinct()
    ensures
        "6ad96"@ != "911fc"@,
        "6ad96"@ != "a4e1b"@,
        "911fc"@ != "a4e1b"@,
{
    reveal_strlit("6ad96");
    reveal_strlit("911fc");
    reveal_strlit("a4e1b");
    assert("6ad96"@[0] == '6');
    assert("911fc"@[0] == '9');
    assert("a4e1b"@[0] == 'a');
}

/// The catalog position of a catalog entry's identifier is that entry's
/// index: identifiers name catalog positions unambiguously.
pub proof fn lemma_index_of_catalog(i: int)
    requires
        0 <= i < Migration::spec_catalog().len(),
    ensures
        Migration::spec_index_of(Migration::spec_catalog()[i].0) == Some(i),
{
    lemma_ids_distinct();
}

/// Applying catalog entries `(i, m]` and then `(m, j]` is the same as
/// applying `(i, j]` in one run.
proof fn lemma_chain_compose(i: int, m: int, j: int, d: Seq<ProjectV>)
    requires
        i <= m <= j,
    ensures
        Migration::spec_chain(m, j, Migration::spec_chain(i, m, d)) == Migration::spec_chain(
            i,
            j,
            d,
        ),
    decreases j - m,
{
    if j > m {
        lemma_chain_compose(i, m, j - 1, d);
    }
}

/// A document stored under the catalog's newest version has no pending
/// migrations, whatever its data.
pub proof fn lemma_resolve_at_latest(v: Seq<char>, d: Seq<ProjectV>)
    requires
        v == Migration::spec_version_ids().last(),
    ensures
        Migration::spec_resolve(v, d) == Seq::<(Seq<char>, Seq<ProjectV>)>::empty(),
{
    lemma_ids_distinct();
    assert(v == "a4e1b"@);
    assert(Migration::spec_resolve(v, d) =~= Seq::<(Seq<char>, Seq<ProjectV>)>::empty());
}

/// A document stored under a version the catalog does not know has no
/// pending migrations: a newer-than-known version is accepted silently.
pub proof fn lemma_resolve_unknown(v: Seq<char>, d: Seq<ProjectV>)
    requires
        !Migration::spec_version_ids().contains(v),
    ensures
        Migration::spec_resolve(v, d) == Seq::<(Seq<char>, Seq<ProjectV>)>::empty(),
{
    assert(Migration::spec_version_ids()[0] == "6ad96"@);
    assert(Migration::spec_version_ids()[1] == "911fc"@);
    assert(Migration::spec_version_ids()[2] == "a4e1b"@);
    if v == "6ad96"@ || v == "911fc"@ || v == "a4e1b"@ {
        assert(Migration::spec_version_ids().contains(v));
    }
    assert(Migration::spec_resolve(v, d) =~= Seq::<(Seq<char>, Seq<ProjectV>)>::empty());
}

/// The resolution is empty exactly when the stored version is the newest
/// known one or is not in the catalog at all.
pub proof fn lemma_resolve_empty_iff(v: Seq<char>, d: Seq<ProjectV>)
    ensures
        (Migration::spec_resolve(v, d).len() == 0) <==> (v == Migration::spec_version_ids().last()
            || !Migration::spec_version_ids().contains(v)),
{
    lemma_ids_distinct();
    assert(Migration::spec_version_ids()[0] == "6ad96"@);
    assert(Migration::spec_version_ids()[1] == "911fc"@);
    assert(Migration::spec_version_ids()[2] == "a4e1b"@);
    match Migration::spec_index_of(v) {
        Some(i) => {
            assert(Migration::spec_version_ids()[i] == v);
            assert(Migration::spec_version_ids().contains(v));
            assert(Migration::spec_resolve(v, d).len() == Migration::spec_catalog().len() - 1 - i);
        },
        None => {
            if Migration::spec_version_ids().contains(v) {
                let i = choose|i: int|
                    0 <= i < Migration::spec_version_ids().len()
                        && Migration::spec_version_ids()[i] == v;
                assert(i == 0 || i == 1 || i == 2);
                assert(false);
            }
        },
    }
}

/// A document stored under the version at catalog index `i`, with newer
/// entries after it, has exactly one pending step per newer entry, in
/// catalog order, and the final step carries the newest version.
pub proof fn lemma_resolve_pending(v: Seq<char>, d: Seq<ProjectV>, i: int)
    requires
        0 <= i < Migration::spec_catalog().len() - 1,
        Migration::spec_catalog()[i].0 == v,
    ensures
        Migration::spec_resolve(v, d).len() == Migration::spec_catalog().len() - 1 - i,
        forall|k: int|
            0 <= k < Migration::spec_resolve(v, d).len() ==> (#[trigger] Migration::spec_resolve(
                v,
                d,
            )[k]).0 == Migration::spec_catalog()[i + 1 + k].0,
        Migration::spec_resolve(v, d).last().0 == Migration::spec_version_ids().last(),
{
    lemma_index_of_catalog(i);
}

/// Idempotence of the startup check: once the final pending step has been
/// written, a second resolution from the written document finds nothing to
/// do.
pub proof fn lemma_check_idempotent(v: Seq<char>, d: Seq<ProjectV>)
    requires
        Migration::spec_resolve(v, d).len() > 0,
    ensures
        Migration::spec_resolve(
            Migration::spec_resolve(v, d).last().0,
            Migration::spec_resolve(v, d).last().1,
        ) == Seq::<(Seq<char>, Seq<ProjectV>)>::empty(),
{
    lemma_ids_distinct();
    let steps = Migration::spec_resolve(v, d);
    assert(steps.last().0 == Migration::spec_catalog()[2].0);
    lemma_resolve_at_latest(steps.last().0, steps.last().1);
}

/// Crash resumability: if the process stops after durably writing step `k`
/// of the pending chain, a later resolution from that written document
/// yields exactly the remaining steps, unchanged — no transform runs twice
/// on a record.
pub proof fn lemma_resolve_resume(v: Seq<char>, d: Seq<ProjectV>, k: int)
    requires
        0 <= k < Migration::spec_resolve(v, d).len(),
    ensures
        Migration::spec_resolve(
            Migration::spec_resolve(v, d)[k].0,
            Migration::spec_resolve(v, d)[k].1,
        ) == Migration::spec_resolve(v, d).skip(k + 1),
{
    lemma_ids_distinct();
    let steps = Migration::spec_resolve(v, d);
    let i = Migration::spec_index_of(v)->Some_0;
    let i2 = i + 1 + k;
    assert(steps[k].0 == Migration::spec_catalog()[i2].0);
    assert(steps[k].1 == Migration::spec_chain(i, i2, d));
    lemma_index_of_catalog(i2);
    let lhs = Migration::spec_resolve(steps[k].0, steps[k].1);
    let rhs = steps.skip(k + 1);
    assert forall|m: int| 0 <= m < lhs.len() implies lhs[m] == rhs[m] by {
        lemma_chain_compose(i, i2, i2 + 1 + m, d);
    }
    assert(lhs =~= rhs);
}

/// Backfill correctness: the priority backfill gives a task without a
/// priority the default `0` and touches nothing else; the note backfill
/// gives a task without a note the default empty note and touches nothing
/// else; a field already present is left as it is.
pub proof fn lemma_backfill_task(t: TaskV)
    ensures
        spec_step_task(MigrationStep::AddPriority, t).priority == (if t.priority is None {
            Some(0u32)
        } else {
            t.priority
        }),
        spec_step_task(MigrationStep::AddPriority, t) == (TaskV {
            priority: spec_step_task(MigrationStep::AddPriority, t).priority,
            ..t
        }),
        spec_step_task(MigrationStep::AddNote, t).note == (if t.note is None {
            Some(Seq::<char>::empty())
        } else {
            t.note
        }),
        spec_step_task(MigrationStep::AddNote, t) == (TaskV {
            note: spec_step_task(MigrationStep::AddNote, t).note,
            ..t
        }),
        spec_step_task(MigrationStep::Identity, t) == t,
{
}

/// Legacy upgrade: adopting the legacy document stored under the catalog
/// version at index `i` and re-running the check ends at the catalog's
/// newest version, with every later entry's migration applied in order.
pub proof fn lemma_legacy_upgrade(v: Seq<char>, d: Seq<ProjectV>, i: int)
    requires
        0 <= i < Migration::spec_catalog().len(),
        Migration::spec_catalog()[i].0 == v,
    ensures
        i == Migration::spec_catalog().len() - 1 ==> Migration::spec_resolve(v, d) == Seq::<
            (Seq<char>, Seq<ProjectV>),
        >::empty(),
        i < Migration::spec_catalog().len() - 1 ==> Migration::spec_resolve(v, d).last() == (
            Migration::spec_version_ids().last(),
            Migration::spec_chain(i, Migration::spec_catalog().len() - 1, d),
        ),
{
    lemma_index_of_catalog(i);
    if i == Migration::spec_catalog().len() - 1 {
        lemma_resolve_at_latest(v, d);
    } else {
        lemma_resolve_pending(v, d, i);
    }
}

/// The abstract value of a computed step list.
pub open spec fn steps_view(v: Seq<(String, Vec<Project>)>) -> Seq<(Seq<char>, Seq<ProjectV>)> {
    v.map_values(|s: (String, Vec<Project>)| (s.0@, projs_view(s.1@)))
}

/// Whether two string slices hold the same characters.
fn str_eq(a: &str, b: &str) -> (r: bool)
    ensures
        r == (a@ == b@),
{
    let a2: String = a.to_owned();
    let b2: String = b.to_owned();
    a2 == b2
}

impl Migration {
    /// The catalog as an executable table.
    pub fn catalog() -> (c: Vec<(String, MigrationStep)>)
        ensures
            c@.len() == Self::spec_catalog().len(),
            forall|i: int|
                0 <= i < c@.len() ==> (#[trigger] c@[i]).0@ == Self::spec_catalog()[i].0
                    && c@[i].1 == Self::spec_catalog()[i].1,
    {
        let mut c: Vec<(String, MigrationStep)> = Vec::new();
        c.push(("6ad96".to_owned(), MigrationStep::Identity));
        c.push(("911fc".to_owned(), MigrationStep::AddPriority));
        c.push(("a4e1b".to_owned(), MigrationStep::AddNote));
        c
    }

    /// The catalog's version identifiers, oldest first.
    pub fn version_ids() -> (v: Vec<String>)
        ensures
            v@.len() == Self::spec_version_ids().len(),
            forall|i: int|
                0 <= i < v@.len() ==> (#[trigger] v@[i])@ == Self::spec_version_ids()[i],
    {
        let mut v: Vec<String> = Vec::new();
        v.push("6ad96".to_owned());
        v.push("911fc".to_owned());
        v.push("a4e1b".to_owned());
        v
    }

    /// The newest version identifier the catalog knows.
    pub fn latest_version() -> (v: String)
        ensures
            v@ == Self::spec_version_ids().last(),
    {
        "a4e1b".to_owned()
    }

    /// Catalog position of a version identifier, if it has one.
    pub fn find_version(version: &str) -> (r: Option<usize>)
        ensures
            match r {
                Some(i) => Self::spec_index_of(version@) == Some(i as int),
                None => Self::spec_index_of(version@) is None,
            },
    {
        if str_eq(version, "6ad96") {
            Some(0)
        } else if str_eq(version, "911fc") {
            Some(1)
        } else if str_eq(version, "a4e1b") {
            Some(2)
        } else {
            None
        }
    }

    /// Apply one migration step to one task: backfill the step's field with
    /// its default when absent, leave every present field alone.
    fn apply_step_task(step: &MigrationStep, t: &Task) -> (r: Task)
        ensures
            r@ == spec_step_task(*step, t@),
    {
        let mut r = t.duplicate();
        match step {
            MigrationStep::Identity => {},
            MigrationStep::AddPriority => {
                if r.priority.is_none() {
                    r.priority = Some(0);
                }
            },
            MigrationStep::AddNote => {
                if r.note.is_none() {
                    r.note = Some(String::new());
                }
            },
        }
        r
    }

    /// Apply one migration step to every task of one project.
    fn apply_step_project(step: &MigrationStep, p: &Project) -> (r: Project)
        ensures
            r@ == spec_step_project(*step, p@),
    {
        let mut tasks: Vec<Task> = Vec::new();
        let mut i: usize = 0;
        while i < p.tasks.len()
            invariant
                i <= p.tasks.len(),
                tasks@.len() == i,
                forall|k: int|
                    0 <= k < i ==> #[trigger] tasks@[k]@ == spec_step_task(*step, p.tasks@[k]@),
            decreases p.tasks.len() - i,
        {
            tasks.push(Self::apply_step_task(step, &p.tasks[i]));
            i += 1;
        }
        let r = Project { title: p.title.clone(), tasks };
        proof {
            assert(r@.tasks =~= spec_step_project(*step, p@).tasks);
            assert(r@ =~= spec_step_project(*step, p@));
        }
        r
    }

    /// Apply one migration step to a whole document.
    pub fn apply_step(step: &MigrationStep, data: &Vec<Project>) -> (r: Vec<Project>)
        ensures
            projs_view(r@) == spec_step_data(*step, projs_view(data@)),
    {
        let mut r: Vec<Project> = Vec::new();
        let mut i: usize = 0;
        while i < data.len()
            invariant
                i <= data.len(),
                r@.len() == i,
                forall|k: int|
                    0 <= k < i ==> #[trigger] r@[k]@ == spec_step_project(*step, data@[k]@),
            decreases data.len() - i,
        {
            r.push(Self::apply_step_project(step, &data[i]));
            i += 1;
        }
        proof {
            assert(projs_view(r@) =~= spec_step_data(*step, projs_view(data@)));
        }
        r
    }

    /// The pending migrations for a document stored under `version`: for
    /// every catalog entry after `version`'s, in order, the entry's version
    /// identifier paired with the document after that entry's migration,
    /// each step's output feeding the next step's input.  Empty when
    /// `version` is already the newest or is unknown to the catalog.
    pub fn get_migrations(version: &str, data: Vec<Project>) -> (res: Vec<(String, Vec<Project>)>)
        ensures
            steps_view(res@) == Migration::spec_resolve(version@, projs_view(data@)),
    {
        let ghost d0 = projs_view(data@);
        let cat = Self::catalog();
        let idx = Self::find_version(version);
        match idx {
            None => {
                let res: Vec<(String, Vec<Project>)> = Vec::new();
                proof {
                    assert(steps_view(res@) =~= Migration::spec_resolve(version@, d0));
                }
                res
            },
            Some(i) => {
                let ghost gi = i as int;
                let mut res: Vec<(String, Vec<Project>)> = Vec::new();
                let mut cur = data;
                let mut j: usize = i + 1;
                proof {
                    assert(steps_view(res@) =~= Migration::spec_steps(gi, d0).take(0));
                }
                while j < cat.len()
                    invariant
                        i < j <= cat.len(),
                        cat@.len() == Migration::spec_catalog().len(),
                        i < Migration::spec_catalog().len(),
                        gi == i as int,
                        forall|m: int|
                            0 <= m < cat@.len() ==> (#[trigger] cat@[m]).0@
                                == Migration::spec_catalog()[m].0
                                && cat@[m].1 == Migration::spec_catalog()[m].1,
                        projs_view(cur@) == Migration::spec_chain(gi, j - 1, d0),
                        steps_view(res@) == Migration::spec_steps(gi, d0).take(j - 1 - gi),
                    decreases cat.len() - j,
                {
                    let next = Self::apply_step(&cat[j].1, &cur);
                    let id = cat[j].0.clone();
                    let dup = duplicate_projects(&next);
                    let ghost idv = id@;
                    let ghost dupv = projs_view(dup@);
                    let ghost prev = res@;
                    res.push((id, dup));
                    cur = next;
                    proof {
                        let jj = j as int;
                        let target = Migration::spec_steps(gi, d0);
                        assert(steps_view(prev).len() == prev.len());
                        assert(target.take(jj - 1 - gi).len() == jj - 1 - gi);
                        assert(prev.len() == jj - 1 - gi);
                        assert(res@.len() == prev.len() + 1);
                        assert(projs_view(cur@) == Migration::spec_chain(gi, jj, d0));
                        assert(dupv == Migration::spec_chain(gi, jj, d0));
                        assert(idv == Migration::spec_catalog()[jj].0);
                        assert forall|m: int| 0 <= m < jj - gi implies #[trigger] steps_view(
                            res@,
                        )[m] == target.take(jj - gi)[m] by {
                            if m < jj - gi - 1 {
                                assert(steps_view(prev)[m] == target.take(jj - 1 - gi)[m]);
                                assert(res@[m] == prev[m]);
                            } else {
                                assert(res@[m].0@ == idv);
                                assert(projs_view(res@[m].1@) == dupv);
                            }
                        }
                        assert(steps_view(res@) =~= target.take(jj - gi));
                    }
                    j += 1;
                }
                proof {
                    assert(Migration::spec_steps(gi, d0).take(cat@.len() - 1 - gi)
                        =~= Migration::spec_steps(gi, d0));
                }
                res
            },
        }
    }
}

} // verus!
