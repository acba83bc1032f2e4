//! Domain records carried through migrations.
//!
//! `Project` and `Task` are opaque payloads to the persistence core except
//! for the fields that migrations backfill: the earliest schema lacks
//! `priority` and `note`, so both are optional here, and a backfill fills a
//! missing field with its default while leaving a present value alone.

use vstd::prelude::*;

verus! {

/// Abstract value of a task: the fields as mathematical values.
#[verifier::ext_equal]
pub struct TaskV {
    pub title: Seq<char>,
    pub status: Seq<char>,
    pub priority: Option<u32>,
    pub note: Option<Seq<char>>,
    pub created_at: Option<u64>,
    pub completed_at: Option<u64>,
}

/// One task. `priority` and `note` are absent on records written under a
/// schema older than the one that introduced them.
pub struct Task {
    pub title: String,
    pub status: String,
    pub priority: Option<u32>,
    pub note: Option<String>,
    pub created_at: Option<u64>,
    pub completed_at: Option<u64>,
}

impl View for Task {
    type V = TaskV;

    open spec fn view(&self) -> TaskV {
        TaskV {
            title: self.title@,
            status: self.status@,
            priority: self.priority,
            note: match self.note {
                Some(n) => Some(n@),
                None => None,
            },
            created_at: self.created_at,
            completed_at: self.completed_at,
        }
    }
}

/// Abstract value of a project.
#[verifier::ext_equal]
pub struct ProjectV {
    pub title: Seq<char>,
    pub tasks: Seq<TaskV>,
}

/// One project: a titled, ordered collection of tasks.
pub struct Project {
    pub title: String,
    pub tasks: Vec<Task>,
}

impl View for Project {
    type V = ProjectV;

    open spec fn view(&self) -> ProjectV {
        ProjectV { title: self.title@, tasks: tasks_view(self.tasks@) }
    }
}

/// The abstract values of a sequence of tasks.
pub open spec fn tasks_view(v: Seq<Task>) -> Seq<TaskV> {
    v.map_values(|t: Task| t@)
}

/// The abstract values of a sequence of projects.
pub open spec fn projs_view(v: Seq<Project>) -> Seq<ProjectV> {
    v.map_values(|p: Project| p@)
}

impl Task {
    /// A fresh task equal in abstract value to this one.
    pub fn duplicate(&self) -> (r: Task)
        ensures
            r@ == self@,
    {
        Task {
            title: self.title.clone(),
            status: self.status.clone(),
            priority: self.priority,
            note: match &self.note {
                Some(n) => Some(n.clone()),
                None => None,
            },
            created_at: self.created_at,
            completed_at: self.completed_at,
        }
    }
}

impl Project {
    /// A fresh project equal in abstract value to this one.
    pub fn duplicate(&self) -> (r: Project)
        ensures
            r@ == self@,
    {
        let mut tasks: Vec<Task> = Vec::new();
        let mut i: usize = 0;
        while i < self.tasks.len()
            invariant
                i <= self.tasks.len(),
                tasks@.len() == i,
                forall|k: int| 0 <= k < i ==> #[trigger] tasks@[k]@ == self.tasks@[k]@,
            decreases self.tasks.len() - i,
        {
            tasks.push(self.tasks[i].duplicate());
            i += 1;
        }
        let r = Project { title: self.title.clone(), tasks };
        proof {
            assert(r@.tasks =~= self@.tasks);
            assert(r@ =~= self@);
        }
        r
    }
}

/// A fresh project list equal in abstract value to the given one.
pub fn duplicate_projects(v: &Vec<Project>) -> (r: Vec<Project>)
    ensures
        projs_view(r@) == projs_view(v@),
{
    let mut r: Vec<Project> = Vec::new();
    let mut i: usize = 0;
    while i < v.len()
        invariant
            i <= v.len(),
            r@.len() == i,
            forall|k: int| 0 <= k < i ==> #[trigger] r@[k]@ == v@[k]@,
        decreases v.len() - i,
    {
        r.push(v[i].duplicate());
        i += 1;
    }
    proof {
        assert(projs_view(r@) =~= projs_view(v@));
    }
    r
}

} // verus!
