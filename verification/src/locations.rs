//! The configuration model: the per-location path set, the location itself,
//! and the ordered collection of locations with the shared poll interval.

use vstd::prelude::*;

use crate::paths::join_spec;
use crate::paths::joinPath;
use crate::paths::normalize_spec;
use crate::paths::normalizePath;

verus! {

/// The four-directory path set of one location. `input` and `processing`
/// must exist for the location to be eligible; a missing `completed` or
/// `failed` destination means the matching outcome deletes the file instead
/// of moving it.
#[derive(Clone, Debug, PartialEq, Eq)]
pub struct FileTask {
    pub input: String,
    pub processing: String,
    pub completed: Option<String>,
    pub failed: Option<String>,
}

/// A configuration object may miss a field that the path set requires.
#[derive(Clone, Copy, Debug, PartialEq, Eq, Structural)]
pub enum FileTaskError {
    MissingInput,
    MissingProcessing,
}

impl FileTask {
    /// Expands the shorthand configuration form: a single root path stands
    /// for `root/input` and `root/processing`, with no completed or failed
    /// destination.
    pub fn fromRoot(root: &str) -> (t: FileTask)
        ensures
            t.input@ == join_spec(normalize_spec(root@), "input"@),
            t.processing@ == join_spec(normalize_spec(root@), "processing"@),
            t.completed is None,
            t.failed is None,
    {
        let base = normalizePath(root);
        FileTask {
            input: joinPath(base.as_str(), "input"),
            processing: joinPath(base.as_str(), "processing"),
            completed: None,
            failed: None,
        }
    }

    /// Builds a path set from the fields of a configuration object: `input`
    /// and `processing` are required, in that order; the two destinations
    /// are optional.
    pub fn fromFields(
        input: Option<String>,
        processing: Option<String>,
        completed: Option<String>,
        failed: Option<String>,
    ) -> (r: Result<FileTask, FileTaskError>)
        ensures
            input is None ==> r == Result::<FileTask, FileTaskError>::Err(
                FileTaskError::MissingInput,
            ),
            input is Some && processing is None ==> r == Result::<FileTask, FileTaskError>::Err(
                FileTaskError::MissingProcessing,
            ),
            input is Some && processing is Some ==> (r matches Ok(t) && t.input == input->0
                && t.processing == processing->0 && t.completed == completed && t.failed == failed),
    {
        match (input, processing) {
            (None, _) => Err(FileTaskError::MissingInput),
            (Some(_), None) => Err(FileTaskError::MissingProcessing),
            (Some(i), Some(p)) => Ok(
                FileTask { input: i, processing: p, completed, failed },
            ),
        }
    }

    /// The paths this path set requires to exist, in the order verification
    /// checks them: input, processing, then the configured destinations.
    pub open spec fn required_paths(self) -> Seq<Seq<char>> {
        let base = seq![self.input@, self.processing@];
        let with_failed = match self.failed {
            Some(f) => base.push(f@),
            None => base,
        };
        match self.completed {
            Some(c) => with_failed.push(c@),
            None => with_failed,
        }
    }
}

/// One watched pipeline: its path set, the readiness delay between
/// file-stability samples, the external command, whether the command runs
/// through the shell, the two timestamp-suffix flags, and an optional
/// working directory for the command.
#[derive(Clone, Debug, PartialEq, Eq)]
pub struct Location {
    pub file: FileTask,
    pub readinessDelay: u32,
    pub process: String,
    pub shell_command: bool,
    pub processing_timestamp: bool,
    pub complete_timestamp: bool,
    pub current_dir: Option<String>,
}

/// The whole configuration: an ordered sequence of locations and the poll
/// interval, in milliseconds, shared by all of them.
#[derive(Clone, Debug)]
pub struct Locations {
    pub locations: Vec<Location>,
    pub polling_delay: u32,
}

/// The paths a location requires to exist, as values.
pub fn requiredPaths(task: &FileTask) -> (r: Vec<String>)
    ensures
        crate::paths::views(r@) == task.required_paths(),
{
    let mut r: Vec<String> = Vec::new();
    r.push(task.input.clone());
    r.push(task.processing.clone());
    match &task.failed {
        Some(f) => r.push(f.clone()),
        None => (),
    }
    match &task.completed {
        Some(c) => r.push(c.clone()),
        None => (),
    }
    proof {
        assert(crate::paths::views(r@) =~= task.required_paths());
    }
    r
}

} // verus!
