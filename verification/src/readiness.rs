//! The readiness detector: a file newly observed in the input folder is
//! safe to move only once it has stopped changing, which the detector reads
//! off two consecutive size/modification-time samples that agree. The
//! caller samples the file, sleeps for the location's readiness delay, and
//! samples again, repeating with the latest sample as the new baseline
//! until one step reports the file ready.

use vstd::prelude::*;

verus! {

/// A file's modification time, as seconds and nanoseconds.
#[derive(Clone, Copy, Debug, PartialEq, Eq, Structural)]
pub struct Mtime {
    pub seconds: i64,
    pub nanos: u32,
}

/// One stability sample of a file: its size and, where the filesystem
/// reports one, its modification time.
#[derive(Clone, Copy, Debug)]
pub struct FileSample {
    pub len: u64,
    pub modified: Option<Mtime>,
}

/// Two samples agree when the sizes match and the modification times match,
/// a missing modification time matching only a missing one.
pub open spec fn sample_eq(a: FileSample, b: FileSample) -> bool {
    &&& a.len == b.len
    &&& match (a.modified, b.modified) {
        (None, None) => true,
        (Some(x), Some(y)) => x == y,
        _ => false,
    }
}

/// What one readiness step decides: the file is ready, or the wait goes on
/// with the latest sample as the new baseline.
#[derive(Clone, Copy, Debug)]
pub enum ReadinessStep {
    Ready,
    Continue { baseline: FileSample },
}

/// Decides one step of the readiness wait from the previous and the current
/// sample.
pub fn readinessStep(baseline: &FileSample, current: &FileSample) -> (r: ReadinessStep)
    ensures
        r is Ready <==> sample_eq(*baseline, *current),
        r matches ReadinessStep::Continue { baseline: b } ==> b == *current,
{
    let sizes_match = baseline.len == current.len;
    let times_match = match (&baseline.modified, &current.modified) {
        (None, None) => true,
        (Some(x), Some(y)) => x.seconds == y.seconds && x.nanos == y.nanos,
        _ => false,
    };
    if sizes_match && times_match {
        ReadinessStep::Ready
    } else {
        ReadinessStep::Continue { baseline: *current }
    }
}

/// The sample index at which a file is first declared ready: the first
/// position whose sample agrees with the one before it.
pub open spec fn is_first_ready(samples: Seq<FileSample>, i: int) -> bool {
    &&& 1 <= i < samples.len()
    &&& sample_eq(samples[i - 1], samples[i])
    &&& forall|j: int| 1 <= j < i ==> !sample_eq(samples[j - 1], #[trigger] samples[j])
}

/// The index at which a run of consecutive samples first declares the file
/// ready, or nothing when no two consecutive samples of the run agree.
pub fn firstReadyIndex(samples: &Vec<FileSample>) -> (r: Option<usize>)
    ensures
        r matches Some(i) ==> is_first_ready(samples@, i as int),
        r is None ==> forall|j: int|
            1 <= j < samples@.len() ==> !sample_eq(samples@[j - 1], #[trigger] samples@[j]),
{
    let mut i: usize = 1;
    while i < samples.len()
        invariant
            1 <= i,
            forall|j: int| 1 <= j < i && j < samples@.len() ==> !sample_eq(
                samples@[j - 1],
                #[trigger] samples@[j],
            ),
        decreases samples@.len() - i,
    {
        match readinessStep(&samples[i - 1], &samples[i]) {
            ReadinessStep::Ready => {
                return Some(i);
            },
            ReadinessStep::Continue { .. } => {
                i = i + 1;
            },
        }
    }
    None
}

/// A file whose size and modification time are identical across two
/// consecutive samples is declared ready after exactly one extra sleep
/// interval: at the second sample.
pub proof fn lemma_stable_file_ready_at_once(samples: Seq<FileSample>)
    requires
        samples.len() >= 2,
        sample_eq(samples[0], samples[1]),
    ensures
        is_first_ready(samples, 1),
{
}

/// A file still changing across the first n samples is not declared ready
/// before the (n+1)-th sample; it is declared ready there exactly when that
/// sample matches the n-th.
pub proof fn lemma_changing_file_ready_when_settled(samples: Seq<FileSample>, n: int)
    requires
        1 <= n < samples.len(),
        forall|j: int| 1 <= j < n ==> !sample_eq(samples[j - 1], #[trigger] samples[j]),
    ensures
        sample_eq(samples[n - 1], samples[n]) <==> is_first_ready(samples, n),
        forall|i: int| i < n ==> !is_first_ready(samples, i),
{
}

} // verus!
