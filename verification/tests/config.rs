use folderwatch::FileTask;
use folderwatch::FileTaskError;
use folderwatch::missingPaths;
use folderwatch::requiredPaths;

#[test]
fn shorthand_root_expands_to_the_two_standard_subfolders() {
    let task = FileTask::fromRoot("/test/path/to/folder");
    assert_eq!("/test/path/to/folder/input", task.input);
    assert_eq!("/test/path/to/folder/processing", task.processing);
    assert_eq!(None, task.completed);
    assert_eq!(None, task.failed);
}

#[test]
fn shorthand_root_normalizes_separator_noise() {
    let task = FileTask::fromRoot("/root//watched/");
    assert_eq!("/root/watched/input", task.input);
    assert_eq!("/root/watched/processing", task.processing);

    let relative = FileTask::fromRoot("watched");
    assert_eq!("watched/input", relative.input);
    assert_eq!("watched/processing", relative.processing);
}

#[test]
fn from_fields_requires_input_then_processing() {
    let ok = FileTask::fromFields(
        Some("in".to_string()),
        Some("proc".to_string()),
        Some("done".to_string()),
        None,
    )
    .unwrap();
    assert_eq!("in", ok.input);
    assert_eq!("proc", ok.processing);
    assert_eq!(Some("done".to_string()), ok.completed);
    assert_eq!(None, ok.failed);

    assert_eq!(
        Err(FileTaskError::MissingInput),
        FileTask::fromFields(None, Some("proc".to_string()), None, None)
    );
    assert_eq!(
        Err(FileTaskError::MissingProcessing),
        FileTask::fromFields(Some("in".to_string()), None, None, None)
    );
}

fn sample_task() -> FileTask {
    FileTask {
        input: "in".to_string(),
        processing: "proc".to_string(),
        completed: Some("done".to_string()),
        failed: Some("bad".to_string()),
    }
}

#[test]
fn required_paths_lists_input_processing_then_destinations() {
    let all = requiredPaths(&sample_task());
    assert_eq!(vec!["in", "proc", "bad", "done"], all);

    let mut bare = sample_task();
    bare.completed = None;
    bare.failed = None;
    assert_eq!(vec!["in", "proc"], requiredPaths(&bare));
}

#[test]
fn missing_paths_names_exactly_the_absent_ones() {
    let paths = vec![
        "in".to_string(),
        "proc".to_string(),
        "bad".to_string(),
        "done".to_string(),
    ];
    let none_missing = missingPaths(&paths, &vec![true, true, true, true]);
    assert!(none_missing.is_empty());

    let some_missing = missingPaths(&paths, &vec![true, false, true, false]);
    assert_eq!(vec!["proc", "done"], some_missing);

    let all_missing = missingPaths(&paths, &vec![false, false, false, false]);
    assert_eq!(paths, all_missing);
}
