use folderwatch::CommandPlan;
use folderwatch::FileTask;
use folderwatch::FolderEntry;
use folderwatch::IntakeAction;
use folderwatch::Invocation;
use folderwatch::Location;
use folderwatch::RouteAction;
use folderwatch::StagingAction;
use folderwatch::Timestamp;
use folderwatch::intakeAction;
use folderwatch::intakeDestination;
use folderwatch::prepareCommand;
use folderwatch::processLocation;
use folderwatch::routeOutcome;
use folderwatch::stagingAction;

fn ts() -> Timestamp {
    Timestamp { year: 2026, month: 1, day: 2, hour: 3, minute: 4, second: 5 }
}

fn location() -> Location {
    Location {
        file: FileTask {
            input: "/watch/input".to_string(),
            processing: "/watch/processing".to_string(),
            completed: Some("/watch/completed".to_string()),
            failed: None,
        },
        readinessDelay: 10,
        process: "true".to_string(),
        shell_command: true,
        processing_timestamp: false,
        complete_timestamp: false,
        current_dir: None,
    }
}

#[test]
fn intake_moves_a_ready_file_into_processing() {
    assert_eq!(
        "/watch/processing/a.txt",
        intakeDestination(&location(), "a.txt", &ts())
    );
}

#[test]
fn intake_with_the_flag_inserts_a_timestamp() {
    let mut loc = location();
    loc.processing_timestamp = true;
    assert_eq!(
        "/watch/processing/a_2026-01-02_03-04-05.txt",
        intakeDestination(&loc, "a.txt", &ts())
    );
}

#[test]
fn intake_skips_directories() {
    let dir_entry = FolderEntry { name: "subdir".to_string(), is_dir: true };
    assert!(matches!(intakeAction(&location(), &dir_entry, &ts()), IntakeAction::Skip));
}

#[test]
fn shell_mode_joins_command_and_path_into_one_line() {
    let plan = prepareCommand("/watch/processing/a.txt", &location());
    match plan.invocation {
        Invocation::Shell { command_line } => {
            assert_eq!("true /watch/processing/a.txt", command_line)
        }
        Invocation::Direct { .. } => panic!("shell mode must hand one line to the shell"),
    }
    assert_eq!(None, plan.current_dir);
}

#[test]
fn direct_mode_passes_the_path_as_a_separate_argument() {
    let mut loc = location();
    loc.shell_command = false;
    loc.current_dir = Some("/work".to_string());
    let plan = prepareCommand("/watch/processing/a.txt", &loc);
    match plan.invocation {
        Invocation::Direct { program, argument } => {
            assert_eq!("true", program);
            assert_eq!("/watch/processing/a.txt", argument);
        }
        Invocation::Shell { .. } => panic!("direct mode must not involve the shell"),
    }
    assert_eq!(Some("/work".to_string()), plan.current_dir);
}

#[test]
fn a_directory_in_the_processing_folder_is_an_error_and_left_alone() {
    let dir_entry = FolderEntry { name: "subdir".to_string(), is_dir: true };
    assert!(matches!(
        stagingAction(&location(), &dir_entry),
        StagingAction::DirectoryError
    ));
}

#[test]
fn success_routes_to_completed() {
    let route = routeOutcome(&location(), "a.txt", true, true, &ts());
    match route {
        RouteAction::MoveTo { destination } => assert_eq!("/watch/completed/a.txt", destination),
        other => panic!("expected a move, got {:?}", other),
    }
}

#[test]
fn success_routes_with_a_timestamp_when_the_flag_is_set() {
    let mut loc = location();
    loc.complete_timestamp = true;
    let route = routeOutcome(&loc, "a.txt", true, true, &ts());
    match route {
        RouteAction::MoveTo { destination } => {
            assert_eq!("/watch/completed/a_2026-01-02_03-04-05.txt", destination)
        }
        other => panic!("expected a move, got {:?}", other),
    }
}

#[test]
fn failure_without_a_failed_folder_deletes_the_file() {
    assert!(matches!(
        routeOutcome(&location(), "a.txt", false, true, &ts()),
        RouteAction::Remove
    ));
}

#[test]
fn failure_with_a_failed_folder_moves_the_file_there() {
    let mut loc = location();
    loc.file.failed = Some("/watch/failed".to_string());
    let route = routeOutcome(&loc, "a.txt", false, true, &ts());
    match route {
        RouteAction::MoveTo { destination } => assert_eq!("/watch/failed/a.txt", destination),
        other => panic!("expected a move, got {:?}", other),
    }
}

#[test]
fn a_file_the_command_already_removed_is_left_alone() {
    assert!(matches!(
        routeOutcome(&location(), "a.txt", true, false, &ts()),
        RouteAction::Leave
    ));
}

#[test]
fn a_plan_decides_every_entry_in_scan_order() {
    let loc = location();
    let input = vec![
        FolderEntry { name: "one.txt".to_string(), is_dir: false },
        FolderEntry { name: "nested".to_string(), is_dir: true },
        FolderEntry { name: "two.txt".to_string(), is_dir: false },
    ];
    let staged = vec![
        FolderEntry { name: "stray".to_string(), is_dir: true },
        FolderEntry { name: "job.txt".to_string(), is_dir: false },
    ];
    let plan = processLocation(&loc, &input, &staged, &ts());

    assert_eq!(3, plan.intake.len());
    match &plan.intake[0] {
        IntakeAction::MoveToProcessing { destination } => {
            assert_eq!("/watch/processing/one.txt", destination)
        }
        IntakeAction::Skip => panic!("a file must move"),
    }
    assert!(matches!(plan.intake[1], IntakeAction::Skip));
    match &plan.intake[2] {
        IntakeAction::MoveToProcessing { destination } => {
            assert_eq!("/watch/processing/two.txt", destination)
        }
        IntakeAction::Skip => panic!("a file must move"),
    }

    assert_eq!(2, plan.staging.len());
    assert!(matches!(plan.staging[0], StagingAction::DirectoryError));
    match &plan.staging[1] {
        StagingAction::Execute { item_path, .. } => {
            assert_eq!("/watch/processing/job.txt", item_path)
        }
        StagingAction::DirectoryError => panic!("a file must be executed"),
    }
}

fn run_planned_command(plan: &CommandPlan) -> bool {
    match &plan.invocation {
        Invocation::Shell { command_line } => command_line.starts_with("true "),
        Invocation::Direct { program, .. } => program == "true",
    }
}

#[test]
fn end_to_end_report_csv_reaches_completed_and_nothing_else() {
    let loc = location();

    // First cycle: report.csv sits in the input folder, processing is empty.
    let input = vec![FolderEntry { name: "report.csv".to_string(), is_dir: false }];
    let first = processLocation(&loc, &input, &vec![], &ts());
    assert_eq!(1, first.intake.len());
    let moved_to = match &first.intake[0] {
        IntakeAction::MoveToProcessing { destination } => destination.clone(),
        IntakeAction::Skip => panic!("a ready file must move"),
    };
    assert_eq!("/watch/processing/report.csv", moved_to);
    assert!(first.staging.is_empty());

    // Second cycle: report.csv now sits in the processing folder.
    let staged = vec![FolderEntry { name: "report.csv".to_string(), is_dir: false }];
    let second = processLocation(&loc, &vec![], &staged, &ts());
    assert_eq!(1, second.staging.len());
    let (item_path, command) = match &second.staging[0] {
        StagingAction::Execute { item_path, command } => (item_path.clone(), command),
        StagingAction::DirectoryError => panic!("a file must be executed"),
    };
    assert_eq!("/watch/processing/report.csv", item_path);

    // The command `true` always exits 0; route the success.
    let success = run_planned_command(command);
    assert!(success);
    let route = routeOutcome(&loc, "report.csv", success, true, &ts());
    match route {
        RouteAction::MoveTo { destination } => {
            assert_eq!("/watch/completed/report.csv", destination)
        }
        other => panic!("expected a move to completed, got {:?}", other),
    }
}
