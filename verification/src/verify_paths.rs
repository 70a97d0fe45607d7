//! Startup path verification: every directory a location refers to must
//! exist before the polling loop may start. The check against the
//! filesystem goes through one trusted call; which paths a configuration
//! requires, and which of them count as missing for given existence
//! observations, is verified logic.

use vstd::prelude::*;

use crate::locations::Location;
use crate::locations::Locations;
use crate::locations::requiredPaths;
use crate::paths::views;

verus! {

/// Relies on std::path::Path::exists: whether the path points at an
/// existing filesystem entity at the moment of the call.
#[verifier::external_body]
fn path_exists(path: &str) -> bool {
    std::path::Path::new(path).exists()
}

/// The paths among `paths` whose existence observation is false, in order.
pub open spec fn missing_spec(paths: Seq<Seq<char>>, exist: Seq<bool>) -> Seq<Seq<char>>
    decreases paths.len(),
{
    if paths.len() == 0 {
        Seq::empty()
    } else if exist[0] {
        missing_spec(paths.subrange(1, paths.len() as int), exist.subrange(1, exist.len() as int))
    } else {
        seq![paths[0]] + missing_spec(
            paths.subrange(1, paths.len() as int),
            exist.subrange(1, exist.len() as int),
        )
    }
}

/// Verification succeeds exactly when every required path exists, and every
/// missing path is named in the result.
pub proof fn lemma_path_verification(paths: Seq<Seq<char>>, exist: Seq<bool>)
    requires
        paths.len() == exist.len(),
    ensures
        missing_spec(paths, exist).len() == 0 <==> (forall|i: int|
            0 <= i < exist.len() ==> exist[i]),
        forall|i: int|
            0 <= i < paths.len() && !exist[i] ==> missing_spec(paths, exist).contains(paths[i]),
    decreases paths.len(),
{
    if paths.len() > 0 {
        let pt = paths.subrange(1, paths.len() as int);
        let et = exist.subrange(1, exist.len() as int);
        lemma_path_verification(pt, et);
        assert forall|i: int|
            0 <= i < paths.len() && !exist[i] implies missing_spec(paths, exist).contains(
            paths[i],
        ) by {
            if i == 0 {
                assert(missing_spec(paths, exist)[0] == paths[0]);
            } else {
                assert(pt[i - 1] == paths[i]);
                assert(!et[i - 1]);
                let rest = missing_spec(pt, et);
                let k = choose|k: int| 0 <= k < rest.len() && rest[k] == paths[i];
                if exist[0] {
                    assert(missing_spec(paths, exist)[k] == paths[i]);
                } else {
                    assert(missing_spec(paths, exist)[k + 1] == paths[i]);
                }
            }
        }
    }
}

/// The given paths whose observation says they are missing, in order.
pub fn missingPaths(paths: &Vec<String>, exist: &Vec<bool>) -> (r: Vec<String>)
    requires
        paths@.len() == exist@.len(),
    ensures
        views(r@) == missing_spec(views(paths@), exist@),
{
    proof {
        assert(views(paths@).subrange(0, paths@.len() as int) =~= views(paths@));
        assert(exist@.subrange(0, exist@.len() as int) =~= exist@);
    }
    missing_paths_from(paths, exist, 0)
}

fn missing_paths_from(paths: &Vec<String>, exist: &Vec<bool>, from: usize) -> (r: Vec<String>)
    requires
        paths@.len() == exist@.len(),
        from <= paths@.len(),
    ensures
        views(r@) == missing_spec(
            views(paths@).subrange(from as int, paths@.len() as int),
            exist@.subrange(from as int, exist@.len() as int),
        ),
    decreases paths@.len() - from,
{
    let ghost pt = views(paths@).subrange(from as int, paths@.len() as int);
    let ghost et = exist@.subrange(from as int, exist@.len() as int);
    if from == paths.len() {
        proof {
            assert(pt =~= Seq::<Seq<char>>::empty());
        }
        Vec::new()
    } else {
        proof {
            assert(pt[0] == paths@[from as int]@);
            assert(et[0] == exist@[from as int]);
            assert(pt.subrange(1, pt.len() as int) =~= views(paths@).subrange(
                from + 1,
                paths@.len() as int,
            ));
            assert(et.subrange(1, et.len() as int) =~= exist@.subrange(
                from + 1,
                exist@.len() as int,
            ));
        }
        let mut rest = missing_paths_from(paths, exist, from + 1);
        if exist[from] {
            rest
        } else {
            let ghost before = rest@;
            rest.insert(0, paths[from].clone());
            proof {
                assert(views(rest@) =~= seq![paths@[from as int]@] + views(before));
            }
            rest
        }
    }
}

/// The required paths of one location that do not exist right now, for the
/// caller to log; verification of the location succeeds exactly when this
/// list is empty. Which paths exist is an observation of the filesystem,
/// but whatever that observation was, the result is exactly the required
/// paths it marked missing, in checking order.
pub fn missingLocationPaths(location: &Location) -> (r: Vec<String>)
    ensures
        exists|exist: Seq<bool>|
            exist.len() == location.file.required_paths().len() && views(r@) == missing_spec(
                location.file.required_paths(),
                exist,
            ),
{
    let paths = requiredPaths(&location.file);
    let mut exist: Vec<bool> = Vec::new();
    let mut i: usize = 0;
    while i < paths.len()
        invariant
            exist@.len() == i,
            i <= paths@.len(),
        decreases paths@.len() - i,
    {
        exist.push(path_exists(paths[i].as_str()));
        i = i + 1;
    }
    missingPaths(&paths, &exist)
}

/// Whether one path exists on the filesystem right now.
pub fn verifyPath(path: &str) -> bool {
    path_exists(path)
}

/// Whether every path the location requires exists right now: true exactly
/// when the filesystem observation behind the call marked none of the
/// location's required paths missing.
pub fn verifyLocation(location: &Location) -> (r: bool)
    ensures
        exists|exist: Seq<bool>|
            exist.len() == location.file.required_paths().len() && (r <==> missing_spec(
                location.file.required_paths(),
                exist,
            ).len() == 0),
{
    let missing = missingLocationPaths(location);
    proof {
        let e = choose|e: Seq<bool>|
            e.len() == location.file.required_paths().len() && views(missing@) == missing_spec(
                location.file.required_paths(),
                e,
            );
        assert(views(missing@).len() == missing@.len());
        assert(e.len() == location.file.required_paths().len() && ((missing@.len() == 0)
            <==> missing_spec(location.file.required_paths(), e).len() == 0));
    }
    missing.len() == 0
}

/// Whether every path of every location exists right now: one pass/fail
/// answer for the whole configuration, true exactly when, under the
/// per-location filesystem observations behind the call, no location has a
/// required path marked missing. A failure is fatal: the caller must not
/// start the polling loop.
pub fn verifyLocations(locations: &Locations) -> (r: bool)
    ensures
        exists|obs: Seq<Seq<bool>>|
            #![trigger obs.len()]
            obs.len() == locations.locations@.len() && (forall|k: int|
                0 <= k < obs.len() ==> (#[trigger] obs[k]).len()
                    == locations.locations@[k].file.required_paths().len()) && (r <==> (forall|
                k: int,
            |
                0 <= k < obs.len() ==> missing_spec(
                    locations.locations@[k].file.required_paths(),
                    #[trigger] obs[k],
                ).len() == 0)),
{
    let mut ok = true;
    let mut i: usize = 0;
    let ghost mut obs: Seq<Seq<bool>> = Seq::empty();
    while i < locations.locations.len()
        invariant
            i <= locations.locations@.len(),
            obs.len() == i,
            forall|k: int|
                0 <= k < i ==> (#[trigger] obs[k]).len()
                    == locations.locations@[k].file.required_paths().len(),
            ok <==> (forall|k: int|
                0 <= k < i ==> missing_spec(
                    locations.locations@[k].file.required_paths(),
                    #[trigger] obs[k],
                ).len() == 0),
        decreases locations.locations@.len() - i,
    {
        let good = verifyLocation(&locations.locations[i]);
        proof {
            let e = choose|e: Seq<bool>|
                e.len() == locations.locations@[i as int].file.required_paths().len() && (good
                    <==> missing_spec(
                    locations.locations@[i as int].file.required_paths(),
                    e,
                ).len() == 0);
            let prev = obs;
            obs = prev.push(e);
            assert(obs[i as int] == e);
            assert(forall|k: int| 0 <= k < i ==> #[trigger] obs[k] == prev[k]);
            assert(forall|k: int| 0 <= k < i ==> obs[k] == #[trigger] prev[k]);
        }
        if !good {
            ok = false;
        }
        i = i + 1;
    }
    ok
}

/// Whether the location's input and processing folders both exist right
/// now, which makes it eligible for a processing pass.
pub fn checkLocation(location: &Location) -> bool {
    path_exists(location.file.input.as_str()) && path_exists(location.file.processing.as_str())
}

} // verus!
