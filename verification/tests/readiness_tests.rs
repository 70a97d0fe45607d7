use folderwatch::FileSample;
use folderwatch::Mtime;
use folderwatch::ReadinessStep;
use folderwatch::firstReadyIndex;
use folderwatch::readinessStep;

fn sample(len: u64, secs: i64) -> FileSample {
    FileSample {
        len,
        modified: Some(Mtime { seconds: secs, nanos: 0 }),
    }
}

#[test]
fn step_declares_ready_only_on_identical_samples() {
    assert!(matches!(
        readinessStep(&sample(10, 100), &sample(10, 100)),
        ReadinessStep::Ready
    ));
    assert!(matches!(
        readinessStep(&sample(10, 100), &sample(11, 100)),
        ReadinessStep::Continue { .. }
    ));
    assert!(matches!(
        readinessStep(&sample(10, 100), &sample(10, 101)),
        ReadinessStep::Continue { .. }
    ));
}

#[test]
fn step_continues_with_the_latest_sample_as_baseline() {
    match readinessStep(&sample(10, 100), &sample(12, 101)) {
        ReadinessStep::Continue { baseline } => {
            assert_eq!(12, baseline.len);
            assert_eq!(Some(Mtime { seconds: 101, nanos: 0 }), baseline.modified);
        }
        ReadinessStep::Ready => panic!("a changing file must not be ready"),
    }
}

#[test]
fn missing_modification_time_matches_only_a_missing_one() {
    let bare = FileSample { len: 10, modified: None };
    assert!(matches!(readinessStep(&bare, &bare), ReadinessStep::Ready));
    assert!(matches!(
        readinessStep(&bare, &sample(10, 100)),
        ReadinessStep::Continue { .. }
    ));
}

#[test]
fn stable_file_is_ready_after_exactly_one_extra_interval() {
    let samples = vec![sample(10, 100), sample(10, 100), sample(10, 100)];
    assert_eq!(Some(1), firstReadyIndex(&samples));
}

#[test]
fn changing_file_is_ready_only_once_a_sample_repeats() {
    let samples = vec![
        sample(10, 100),
        sample(20, 101),
        sample(30, 102),
        sample(30, 102),
        sample(30, 102),
    ];
    assert_eq!(Some(3), firstReadyIndex(&samples));

    let never = vec![sample(10, 100), sample(20, 101), sample(30, 102)];
    assert_eq!(None, firstReadyIndex(&never));
}
