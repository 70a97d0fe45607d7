//! Folder-watching pipeline runner: the configuration model, readiness
//! detection, per-cycle planning and outcome routing for a system that waits
//! for files to arrive in an input directory, relocates each stable file into
//! a processing directory, runs an external command against it, and routes it
//! to a completed or failed directory (or deletes it) by the command's exit
//! status.

#![allow(non_snake_case)]

pub mod locations;
pub mod paths;
pub mod plan;
pub mod readiness;
pub mod timefmt;
pub mod verify_paths;

pub use plan::CommandPlan;
pub use plan::FolderEntry;
pub use plan::IntakeAction;
pub use plan::Invocation;
pub use plan::LocationPlan;
pub use plan::RouteAction;
pub use plan::StagingAction;
pub use plan::intakeAction;
pub use plan::intakeDestination;
pub use plan::prepareCommand;
pub use plan::processLocation;
pub use plan::routeOutcome;
pub use plan::stagingAction;
pub use readiness::FileSample;
pub use readiness::Mtime;
pub use readiness::ReadinessStep;
pub use readiness::firstReadyIndex;
pub use readiness::readinessStep;

pub use verify_paths::checkLocation;
pub use verify_paths::missingLocationPaths;
pub use verify_paths::missingPaths;
pub use verify_paths::verifyLocation;
pub use verify_paths::verifyLocations;
pub use verify_paths::verifyPath;

pub use locations::FileTask;
pub use locations::FileTaskError;
pub use locations::Location;
pub use locations::Locations;
pub use locations::requiredPaths;

pub use paths::joinPath;
pub use paths::normalizePath;
pub use paths::withSuffix;
pub use timefmt::Timestamp;
pub use timefmt::addTimestamp;
pub use timefmt::nowTimestamp;
pub use timefmt::timestampString;
