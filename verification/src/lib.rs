//! Recursive directory copying: the configuration of a copy and the
//! decisions taken for every entry of the source tree.
//!
//! `DirCopy` says what is copied where; a `CopyRun` made from it decides,
//! answer by answer, what its driver does on the file system.

pub mod config;
pub mod laws;
pub mod model;
pub mod repeat;

pub mod paths;
pub mod run;

pub use config::DirCopy;
pub use paths::{append_components, copy_components, strip_components};
pub use run::{Action, CopyRun, EntryKind, Event, Stage, TargetKind};
