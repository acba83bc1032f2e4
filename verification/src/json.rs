//! The persistence manager's verified core.
//!
//! `Json` owns the process-wide version state: the schema version last known
//! to be on disk.  The functions here compute what the startup consistency
//! check decides — which document to write for an empty or missing file,
//! which legacy file to adopt, and which migration steps are pending — and
//! update the version state exactly as a successful read or write would.
//! The surrounding application performs the file reads and writes and hands
//! the parsed values in; each returned `(version, projects)` pair is one
//! document for it to persist, in order.

use vstd::prelude::*;

use crate::migration::{steps_view, Migration};
use crate::project::{projs_view, Project, ProjectV};

verus! {

/// The persistence manager: the mutable cell holding the version currently
/// believed to be on disk.  It starts empty and is set by the consistency
/// check and by every read; a write pairs the data with whatever the cell
/// holds, so the check (or a read) must run first.
pub struct Json {
    version: String,
}

impl View for Json {
    type V = Seq<char>;

    closed spec fn view(&self) -> Seq<char> {
        self.version@
    }
}

impl Json {
    /// A manager whose version state is still unset (the empty token).
    pub fn new() -> (j: Json)
        ensures
            j@ == Seq::<char>::empty(),
    {
        Json { version: String::new() }
    }

    /// The file name of the current data file under the application's
    /// configuration directory `dir`.
    pub fn get_data_path(dir: &str) -> (r: String)
        ensures
            r@ == dir@ + "/basilk_data.json"@,
    {
        let mut r: String = dir.to_owned();
        r.append("/basilk_data.json");
        r
    }

    /// The file name of the legacy per-version file for `version` under the
    /// application's configuration directory `dir`.
    pub fn get_json_path(dir: &str, version: &str) -> (r: String)
        ensures
            r@ == dir@ + "/"@ + version@ + ".json"@,
    {
        let mut r: String = dir.to_owned();
        r.append("/");
        r.append(version);
        r.append(".json");
        r
    }

    /// Reset to the newest known version with no data: the document to write
    /// when the current file is empty (recoverable corruption) or when
    /// neither a current nor a legacy file exists (fresh install).  Reports
    /// "no migrations applied".
    pub fn reset_to_latest(&mut self) -> (r: (String, Vec<Project>))
        ensures
            final(self)@ == Migration::spec_version_ids().last(),
            r.0@ == Migration::spec_version_ids().last(),
            projs_view(r.1@) == Seq::<ProjectV>::empty(),
            Migration::spec_resolve(r.0@, projs_view(r.1@)).len() == 0,
    {
        let v = Migration::latest_version();
        self.version = v.clone();
        let data: Vec<Project> = Vec::new();
        proof {
            assert(projs_view(data@) =~= Seq::<ProjectV>::empty());
            crate::migration::lemma_resolve_at_latest(v@, projs_view(data@));
        }
        (v, data)
    }

    /// The startup decision for a well-formed current file: record the
    /// stored version, compute the pending migration steps, and leave the
    /// version state at the last step's version (the stored one when no step
    /// is pending).  The first component reports whether migrations were
    /// applied; the application writes each returned document in order.
    pub fn check_current(&mut self, version: &str, data: Vec<Project>) -> (r: (
        bool,
        Vec<(String, Vec<Project>)>,
    ))
        ensures
            steps_view(r.1@) == Migration::spec_resolve(version@, projs_view(data@)),
            r.0 == (Migration::spec_resolve(version@, projs_view(data@)).len() > 0),
            final(self)@ == if Migration::spec_resolve(version@, projs_view(data@)).len() > 0 {
                Migration::spec_resolve(version@, projs_view(data@)).last().0
            } else {
                version@
            },
    {
        self.version = version.to_owned();
        let steps = Migration::get_migrations(version, data);
        if steps.len() == 0 {
            (false, steps)
        } else {
            let last_id = steps[steps.len() - 1].0.clone();
            proof {
                assert(steps_view(steps@)[steps@.len() - 1].0 == last_id@);
            }
            self.version = last_id;
            (true, steps)
        }
    }

    /// The index, in catalog order, of the oldest version whose legacy file
    /// exists; `exists[i]` says whether the file for the catalog's `i`-th
    /// version was found.  `None` means a fresh install.
    pub fn select_legacy(exists: &Vec<bool>) -> (r: Option<usize>)
        requires
            exists@.len() == Migration::spec_version_ids().len(),
        ensures
            match r {
                Some(i) => 0 <= i < exists@.len() && exists@[i as int] && forall|k: int|
                    0 <= k < i ==> !exists@[k],
                None => forall|k: int| 0 <= k < exists@.len() ==> !exists@[k],
            },
    {
        let mut i: usize = 0;
        while i < exists.len()
            invariant
                i <= exists@.len(),
                forall|k: int| 0 <= k < i ==> !exists@[k],
            decreases exists@.len() - i,
        {
            if exists[i] {
                return Some(i);
            }
            i += 1;
        }
        None
    }

    /// Adopt a legacy document: record its version and hand back the
    /// wrapper document to write as the new current file.  The application
    /// then deletes the legacy file (best effort) and re-runs the
    /// consistency check so pending migrations from this version run.
    pub fn adopt_legacy(&mut self, version: &str, data: Vec<Project>) -> (r: (
        String,
        Vec<Project>,
    ))
        ensures
            final(self)@ == version@,
            r.0@ == version@,
            r.1 == data,
    {
        self.version = version.to_owned();
        (version.to_owned(), data)
    }

    /// Record a successful read of the current file: the version state
    /// becomes the stored version and the stored projects are handed back.
    pub fn read(&mut self, version: &str, data: Vec<Project>) -> (r: Vec<Project>)
        ensures
            final(self)@ == version@,
            r == data,
    {
        self.version = version.to_owned();
        data
    }

    /// The document a write persists: the given projects under the version
    /// currently believed to be on disk.  A caller that never ran the
    /// consistency check (nor a read) writes under the empty token.
    pub fn write(&self, projects: Vec<Project>) -> (r: (String, Vec<Project>))
        ensures
            r.0@ == self@,
            r.1 == projects,
    {
        (self.version.clone(), projects)
    }
}

} // verus!
