//! The events that the workers record.
use vstd::prelude::*;

use crate::text::opt_text;

verus! {

/// The worker that records an event.
#[derive(Debug, Clone, Copy, PartialEq, Eq, Structural)]
pub enum Worker {
    Discovery,
    Uploader,
}

/// One line of the event log, without its time.
#[derive(Debug, PartialEq, Eq)]
pub struct EventRecord {
    pub worker: Worker,
    pub event: String,
    pub user_id: String,
    pub path: Option<String>,
    pub asset_id: Option<String>,
    pub detail: Option<String>,
}

/// What an event record says.
pub struct EventView {
    pub worker: Worker,
    pub event: Seq<char>,
    pub user_id: Seq<char>,
    pub path: Option<Seq<char>>,
    pub asset_id: Option<Seq<char>>,
    pub detail: Option<Seq<char>>,
}

impl View for EventRecord {
    type V = EventView;

    open spec fn view(&self) -> EventView {
        EventView {
            worker: self.worker,
            event: self.event@,
            user_id: self.user_id@,
            path: opt_text(self.path),
            asset_id: opt_text(self.asset_id),
            detail: opt_text(self.detail),
        }
    }
}

/// What an optional event record says.
pub open spec fn opt_event(record: Option<EventRecord>) -> Option<EventView> {
    match record {
        Some(r) => Some(r@),
        None => None,
    }
}

} // verus!
