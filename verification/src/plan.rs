//! The per-cycle decisions of the dispatcher: what to do with each entry of
//! a location's input folder (intake) and processing folder (execution),
//! how the external command is to be invoked, and where a file goes once
//! the command has exited. The caller observes the folders, carries out the
//! planned moves, runs the planned commands, and asks for the route of each
//! outcome.

use vstd::prelude::*;

use crate::locations::Location;
use crate::paths::join_spec;
use crate::paths::joinPath;
use crate::paths::with_suffix_spec;
use crate::paths::withSuffix;
use crate::timefmt::Timestamp;
use crate::timefmt::timestamp_spec;
use crate::timefmt::timestampString;

verus! {

/// One directory entry as the scanner observes it: its file name and
/// whether it is a directory.
#[derive(Clone, Debug)]
pub struct FolderEntry {
    pub name: String,
    pub is_dir: bool,
}

/// What intake does with one input-folder entry: directories are skipped;
/// a file, once ready, moves to the planned destination in the processing
/// folder.
#[derive(Clone, Debug)]
pub enum IntakeAction {
    Skip,
    MoveToProcessing { destination: String },
}

/// How the external command is to be invoked: one command line handed to
/// the platform shell, or a program and its single argument invoked
/// directly, with no shell interpretation.
#[derive(Clone, Debug)]
pub enum Invocation {
    Shell { command_line: String },
    Direct { program: String, argument: String },
}

/// A fully planned command: its invocation and the working directory the
/// child process starts in, where one is configured.
#[derive(Clone, Debug)]
pub struct CommandPlan {
    pub invocation: Invocation,
    pub current_dir: Option<String>,
}

/// What the execution phase does with one processing-folder entry: a
/// directory is an error for that entry and is left untouched; a file gets
/// the command run against its path.
#[derive(Clone, Debug)]
pub enum StagingAction {
    DirectoryError,
    Execute { item_path: String, command: CommandPlan },
}

/// Where a file goes after the command has exited: moved to a destination
/// directory, deleted when no destination is configured for the outcome, or
/// left alone when the command itself already removed it.
#[derive(Clone, Debug)]
pub enum RouteAction {
    Leave,
    Remove,
    MoveTo { destination: String },
}

/// The file name as it enters a destination folder: unchanged, or with the
/// timestamp suffix inserted before the extension when the flag asks for
/// one.
pub open spec fn transformed_name(name: Seq<char>, flag: bool, t: Timestamp) -> Seq<char> {
    if flag {
        with_suffix_spec(name, timestamp_spec(t))
    } else {
        name
    }
}

/// The planned destination of an intake move.
pub open spec fn intake_dest_spec(loc: Location, name: Seq<char>, t: Timestamp) -> Seq<char> {
    join_spec(loc.file.processing@, transformed_name(name, loc.processing_timestamp, t))
}

/// What a correctly planned command is: shell mode joins the configured
/// command and the file path into one command line; direct mode passes the
/// command as the program and the path as its argument; the configured
/// working directory is carried over.
pub open spec fn command_plan_ok(loc: Location, path: Seq<char>, c: CommandPlan) -> bool {
    &&& loc.shell_command ==> (c.invocation matches Invocation::Shell { command_line }
        && command_line@ == loc.process@ + seq![' '] + path)
    &&& !loc.shell_command ==> (c.invocation matches Invocation::Direct { program, argument }
        && program@ == loc.process@ && argument@ == path)
    &&& (c.current_dir is Some <==> loc.current_dir is Some)
    &&& loc.current_dir is Some ==> c.current_dir->0@ == loc.current_dir->0@
}

/// What a correct intake decision is for one input-folder entry.
pub open spec fn intake_action_ok(
    loc: Location,
    entry: FolderEntry,
    t: Timestamp,
    a: IntakeAction,
) -> bool {
    if entry.is_dir {
        a is Skip
    } else {
        a matches IntakeAction::MoveToProcessing { destination } && destination@
            == intake_dest_spec(loc, entry.name@, t)
    }
}

/// What a correct execution-phase decision is for one processing-folder
/// entry: a directory only reports an error; a file gets the command
/// planned against its full path in the processing folder.
pub open spec fn staging_action_ok(loc: Location, entry: FolderEntry, a: StagingAction) -> bool {
    if entry.is_dir {
        a is DirectoryError
    } else {
        a matches StagingAction::Execute { item_path, command } && item_path@ == join_spec(
            loc.file.processing@,
            entry.name@,
        ) && command_plan_ok(loc, item_path@, command)
    }
}

/// What a correct route is, given the command's exit outcome and whether
/// the file still exists: a vanished file is left alone; success goes to
/// `completed` and failure to `failed`, with the timestamp transform
/// applied; a missing destination means deletion.
pub open spec fn route_action_ok(
    loc: Location,
    name: Seq<char>,
    success: bool,
    still_exists: bool,
    t: Timestamp,
    r: RouteAction,
) -> bool {
    if !still_exists {
        r is Leave
    } else {
        let target = if success {
            loc.file.completed
        } else {
            loc.file.failed
        };
        match target {
            None => r is Remove,
            Some(dir) => r matches RouteAction::MoveTo { destination } && destination@
                == join_spec(dir@, transformed_name(name, loc.complete_timestamp, t)),
        }
    }
}

/// The destination path of a file moving from the input folder into the
/// processing folder.
pub fn intakeDestination(location: &Location, name: &str, t: &Timestamp) -> (r: String)
    requires
        t.wf(),
    ensures
        r@ == intake_dest_spec(*location, name@, *t),
{
    if location.processing_timestamp {
        let suffix = timestampString(t);
        let renamed = withSuffix(name, suffix.as_str());
        joinPath(location.file.processing.as_str(), renamed.as_str())
    } else {
        joinPath(location.file.processing.as_str(), name)
    }
}

/// Plans the command for one file path: the configured process string and
/// the path, in shell or direct mode, with the configured working
/// directory.
pub fn prepareCommand(path: &str, location: &Location) -> (c: CommandPlan)
    ensures
        command_plan_ok(*location, path@, c),
{
    let invocation = if location.shell_command {
        proof {
            reveal_strlit(" ");
            assert(" "@ =~= seq![' ']);
        }
        Invocation::Shell { command_line: location.process.clone().concat(" ").concat(path) }
    } else {
        Invocation::Direct { program: location.process.clone(), argument: path.to_owned() }
    };
    let current_dir = match &location.current_dir {
        None => None,
        Some(d) => Some(d.clone()),
    };
    CommandPlan { invocation, current_dir }
}

/// Decides intake for one input-folder entry.
pub fn intakeAction(location: &Location, entry: &FolderEntry, t: &Timestamp) -> (a: IntakeAction)
    requires
        t.wf(),
    ensures
        intake_action_ok(*location, *entry, *t, a),
{
    if entry.is_dir {
        IntakeAction::Skip
    } else {
        IntakeAction::MoveToProcessing {
            destination: intakeDestination(location, entry.name.as_str(), t),
        }
    }
}

/// Decides the execution phase for one processing-folder entry.
pub fn stagingAction(location: &Location, entry: &FolderEntry) -> (a: StagingAction)
    ensures
        staging_action_ok(*location, *entry, a),
{
    if entry.is_dir {
        StagingAction::DirectoryError
    } else {
        let item_path = joinPath(location.file.processing.as_str(), entry.name.as_str());
        let command = prepareCommand(item_path.as_str(), location);
        StagingAction::Execute { item_path, command }
    }
}

/// Routes one file after its command has exited.
pub fn routeOutcome(
    location: &Location,
    name: &str,
    success: bool,
    still_exists: bool,
    t: &Timestamp,
) -> (r: RouteAction)
    requires
        t.wf(),
    ensures
        route_action_ok(*location, name@, success, still_exists, *t, r),
{
    if !still_exists {
        return RouteAction::Leave;
    }
    let target = if success {
        &location.file.completed
    } else {
        &location.file.failed
    };
    match target {
        None => RouteAction::Remove,
        Some(dir) => {
            let final_name = if location.complete_timestamp {
                let suffix = timestampString(t);
                withSuffix(name, suffix.as_str())
            } else {
                name.to_owned()
            };
            RouteAction::MoveTo { destination: joinPath(dir.as_str(), final_name.as_str()) }
        },
    }
}

/// The whole plan for one location in one poll cycle: an intake decision
/// for each input-folder entry and an execution decision for each
/// processing-folder entry, in scan order.
pub struct LocationPlan {
    pub intake: Vec<IntakeAction>,
    pub staging: Vec<StagingAction>,
}

/// Plans one location's poll cycle from the two folder listings: intake for
/// every input-folder entry, then execution for every processing-folder
/// entry, each entry decided independently of its siblings.
pub fn processLocation(
    location: &Location,
    input_entries: &Vec<FolderEntry>,
    staging_entries: &Vec<FolderEntry>,
    t: &Timestamp,
) -> (p: LocationPlan)
    requires
        t.wf(),
    ensures
        p.intake@.len() == input_entries@.len(),
        forall|i: int|
            0 <= i < input_entries@.len() ==> intake_action_ok(
                *location,
                input_entries@[i],
                *t,
                #[trigger] p.intake@[i],
            ),
        p.staging@.len() == staging_entries@.len(),
        forall|i: int|
            0 <= i < staging_entries@.len() ==> staging_action_ok(
                *location,
                staging_entries@[i],
                #[trigger] p.staging@[i],
            ),
{
    let mut intake: Vec<IntakeAction> = Vec::new();
    let mut i: usize = 0;
    while i < input_entries.len()
        invariant
            t.wf(),
            i <= input_entries@.len(),
            intake@.len() == i,
            forall|k: int|
                0 <= k < i ==> intake_action_ok(
                    *location,
                    input_entries@[k],
                    *t,
                    #[trigger] intake@[k],
                ),
        decreases input_entries@.len() - i,
    {
        intake.push(intakeAction(location, &input_entries[i], t));
        i = i + 1;
    }
    let mut staging: Vec<StagingAction> = Vec::new();
    let mut k: usize = 0;
    while k < staging_entries.len()
        invariant
            k <= staging_entries@.len(),
            staging@.len() == k,
            forall|j: int|
                0 <= j < k ==> staging_action_ok(
                    *location,
                    staging_entries@[j],
                    #[trigger] staging@[j],
                ),
        decreases staging_entries@.len() - k,
    {
        staging.push(stagingAction(location, &staging_entries[k]));
        k = k + 1;
    }
    LocationPlan { intake, staging }
}

} // verus!
