//! Batch editing and reconciliation engine for audio file metadata.
//!
//! The crate holds the decisions of an interactive tag editor: how the fields
//! of many files are summarised into one group view, how an edit is applied
//! and when it counts as a change, and how a save pass is accounted for.
//! Reading and writing files and talking to the terminal are left to the
//! program that drives the sessions defined here: it asks a session what it
//! waits for, does that, and hands the answer back.
//!
//! - [`fields`] and [`record`]: the tag of one file, and the working set.
//! - [`reconcile`]: the group view over a working set.
//! - [`single`] and [`batch`]: the two editing sessions.
//! - [`input`], [`decimal`] and [`status`]: what a line of input means, and
//!   what is reported back.
//! - [`launch`]: how a run begins.

pub mod batch;
pub mod decimal;
pub mod fields;
pub mod input;
pub mod launch;
pub mod reconcile;
pub mod record;
pub mod single;
pub mod status;
