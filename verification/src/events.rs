//! Audit events: immutable facts appended for each completed operation,
//! consumed by external observers. One event per successful operation, in
//! the order the operations complete; a failed operation emits none.

use vstd::prelude::*;

verus! {

/// Emitted when a new record is created.
pub struct ActionRecorded {
    pub record_id: u64,
    pub agent_id: String,
    pub action_type: u8,
    pub timestamp: i64,
    pub authority: String,
}

/// Emitted when a payload is checked against a stored digest, whatever the
/// outcome: a mismatch is a normal result, not an error.
pub struct ActionVerified {
    pub record_id: u64,
    pub verified: bool,
    pub verifier: String,
}

/// Emitted when a record's metadata is replaced by its authority.
pub struct MetadataUpdated {
    pub record_id: u64,
    pub authority: String,
}

/// An entry of the audit channel.
pub enum Event {
    Recorded(ActionRecorded),
    Verified(ActionVerified),
    MetadataUpdated(MetadataUpdated),
}

/// The mathematical content of an audit event.
#[verifier::ext_equal]
pub enum EventView {
    Recorded { record_id: u64, agent_id: Seq<char>, action_type: u8, timestamp: i64, authority: Seq<char> },
    Verified { record_id: u64, verified: bool, verifier: Seq<char> },
    MetadataUpdated { record_id: u64, authority: Seq<char> },
}

impl View for Event {
    type V = EventView;

    open spec fn view(&self) -> EventView {
        match self {
            Event::Recorded(e) => EventView::Recorded {
                record_id: e.record_id,
                agent_id: e.agent_id@,
                action_type: e.action_type,
                timestamp: e.timestamp,
                authority: e.authority@,
            },
            Event::Verified(e) => EventView::Verified {
                record_id: e.record_id,
                verified: e.verified,
                verifier: e.verifier@,
            },
            Event::MetadataUpdated(e) => EventView::MetadataUpdated {
                record_id: e.record_id,
                authority: e.authority@,
            },
        }
    }
}

} // verus!
