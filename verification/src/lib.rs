//! The decisions of a folder-to-Immich synchronisation service, verified.
//!
//! The library holds what the service decides and computes: its command line and
//! configuration, the requests it sends and how it reads the replies, the table of
//! assets it keeps, the rules by which files are ignored, and the two workers that
//! discover and upload files. Everything that touches a disk, a network or a clock
//! is done by the program around it, which hands plain values in and takes plain
//! values back.
use vstd::prelude::*;

pub mod api;
pub mod api_laws;
pub mod calendar;
pub mod calendar_laws;
pub mod config;
pub mod config_laws;
pub mod event_log;
pub mod hash;
pub mod json;
pub mod local_db;
pub mod local_db_laws;
pub mod sync;
pub mod sync_laws;
pub mod text;
pub mod text_laws;
pub mod view_laws;
pub mod workers;

verus! {

} // verus!
