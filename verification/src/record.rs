//! The record: the unit of stored integrity evidence.

use vstd::prelude::*;
use crate::action_type::valid_action_code;
use crate::hashing::DIGEST_LEN;

verus! {

/// The largest number of characters an agent identifier may have.
pub const MAX_AGENT_ID_LEN: usize = 64;

/// The largest number of characters the metadata field may have.
pub const MAX_METADATA_LEN: usize = 128;

/// The mathematical content of a record.
#[verifier::ext_equal]
pub struct RecordView {
    pub agent_id: Seq<char>,
    pub action_type: u8,
    pub digest: Seq<u8>,
    pub timestamp: i64,
    pub authority: Seq<char>,
    pub metadata: Seq<char>,
}

/// A stored record. Every field but `metadata` is frozen at creation;
/// `metadata` changes only through the authorized update path, and never
/// the digest.
#[derive(Debug)]
pub struct ActionRecord {
    /// Identifies the submitting principal; non-empty, bounded length.
    pub agent_id: String,
    /// The one-byte code of a kind of the closed action enumeration.
    pub action_type: u8,
    /// The fixed-size cryptographic digest of the original payload: the
    /// integrity anchor, set exactly once at creation.
    pub digest: Vec<u8>,
    /// Caller-supplied creation time, strictly positive.
    pub timestamp: i64,
    /// The identity of the creating caller: the sole principal permitted
    /// to mutate `metadata`.
    pub authority: String,
    /// Bounded free-form annotation, defaults empty.
    pub metadata: String,
}

impl View for ActionRecord {
    type V = RecordView;

    open spec fn view(&self) -> RecordView {
        RecordView {
            agent_id: self.agent_id@,
            action_type: self.action_type,
            digest: self.digest@,
            timestamp: self.timestamp,
            authority: self.authority@,
            metadata: self.metadata@,
        }
    }
}

/// Whether an agent identifier is acceptable: non-empty and within the
/// length bound.
pub open spec fn valid_agent_id(agent_id: Seq<char>) -> bool {
    0 < agent_id.len() <= MAX_AGENT_ID_LEN
}

/// Whether metadata is within its length bound.
pub open spec fn valid_metadata(metadata: Seq<char>) -> bool {
    metadata.len() <= MAX_METADATA_LEN
}

/// Well-formedness of a record: what creation establishes and every later
/// operation preserves.
pub open spec fn record_wf(r: RecordView) -> bool {
    &&& valid_agent_id(r.agent_id)
    &&& valid_action_code(r.action_type)
    &&& r.digest.len() == DIGEST_LEN
    &&& r.timestamp > 0
    &&& valid_metadata(r.metadata)
}

} // verus!
