//! The record store: owns the mapping from record identifier to record and
//! the audit channel, and carries out create, read, verify and
//! metadata-update, each as one atomic step whose effect is pinned by a
//! spec-level model.

use vstd::prelude::*;
use crate::action_type::{ActionType, valid_action_code};
use crate::errors::ErrorCode;
use crate::events::{ActionRecorded, ActionVerified, Event, EventView, MetadataUpdated};
use crate::hashing::{compute_digest, digest_of, digests_equal};
use crate::record::{ActionRecord, RecordView, record_wf, valid_agent_id, valid_metadata, MAX_AGENT_ID_LEN};

verus! {

/// The mathematical content of the ledger: the stored records in order of
/// creation, and the audit events in order of completion. The record with
/// identifier `id` is `records[id - 1]`: identifiers are assigned 1, 2, ...
/// and never reused.
#[verifier::ext_equal]
pub struct StoreView {
    pub records: Seq<RecordView>,
    pub events: Seq<EventView>,
}

/// Whether `id` names a record of `s`.
pub open spec fn has_record(s: StoreView, id: u64) -> bool {
    1 <= id <= s.records.len()
}

/// The record of `s` named by `id`.
pub open spec fn record_at(s: StoreView, id: u64) -> RecordView {
    s.records[id - 1]
}

/// Every record of the store is well-formed.
pub open spec fn store_wf(s: StoreView) -> bool {
    forall|i: int| 0 <= i < s.records.len() ==> record_wf(#[trigger] s.records[i])
}

/// Which validation error `store_action` raises, if any. The checks run in
/// this order; each failure leaves the store untouched.
pub open spec fn store_action_error(agent_id: Seq<char>, action_type: u8, payload: Seq<u8>, timestamp: i64) -> Option<ErrorCode> {
    if !valid_agent_id(agent_id) {
        Some(ErrorCode::InvalidAgentId)
    } else if payload.len() == 0 {
        Some(ErrorCode::EmptyActionData)
    } else if timestamp <= 0 {
        Some(ErrorCode::InvalidTimestamp)
    } else if !valid_action_code(action_type) {
        Some(ErrorCode::InvalidActionType)
    } else {
        None
    }
}

/// The record that a successful `store_action` stores: the digest of the
/// payload as integrity anchor, the creating caller as authority, and empty
/// metadata.
pub open spec fn created_record(agent_id: Seq<char>, action_type: u8, payload: Seq<u8>, timestamp: i64, caller: Seq<char>) -> RecordView {
    RecordView {
        agent_id,
        action_type,
        digest: digest_of(payload),
        timestamp,
        authority: caller,
        metadata: Seq::<char>::empty(),
    }
}

/// The model of `store_action`: the store after the call, and its result.
pub open spec fn store_action_spec(pre: StoreView, agent_id: Seq<char>, action_type: u8, payload: Seq<u8>, timestamp: i64, caller: Seq<char>) -> (StoreView, Result<u64, ErrorCode>) {
    match store_action_error(agent_id, action_type, payload, timestamp) {
        Some(e) => (pre, Err(e)),
        None => {
            let id = (pre.records.len() + 1) as u64;
            let post = StoreView {
                records: pre.records.push(created_record(agent_id, action_type, payload, timestamp, caller)),
                events: pre.events.push(EventView::Recorded {
                    record_id: id,
                    agent_id,
                    action_type,
                    timestamp,
                    authority: caller,
                }),
            };
            (post, Ok(id))
        },
    }
}

/// The model of `verify_action`: the store after the call, and its result.
/// A digest mismatch is the successful result `false`, sharply distinct from
/// `RecordNotFound`.
pub open spec fn verify_action_spec(pre: StoreView, record_id: u64, payload: Seq<u8>, caller: Seq<char>) -> (StoreView, Result<bool, ErrorCode>) {
    if payload.len() == 0 {
        (pre, Err(ErrorCode::EmptyActionData))
    } else if !has_record(pre, record_id) {
        (pre, Err(ErrorCode::RecordNotFound))
    } else {
        let verified = digest_of(payload) == record_at(pre, record_id).digest;
        let post = StoreView {
            records: pre.records,
            events: pre.events.push(EventView::Verified { record_id, verified, verifier: caller }),
        };
        (post, Ok(verified))
    }
}

/// The model of `update_metadata`: the store after the call, and its result.
/// On success only the metadata field of the named record changes; the
/// digest is structurally out of this path's reach.
pub open spec fn update_metadata_spec(pre: StoreView, record_id: u64, new_metadata: Seq<char>, caller: Seq<char>) -> (StoreView, Result<(), ErrorCode>) {
    if !has_record(pre, record_id) {
        (pre, Err(ErrorCode::RecordNotFound))
    } else if record_at(pre, record_id).authority != caller {
        (pre, Err(ErrorCode::UnauthorizedMetadataUpdate))
    } else {
        let updated = RecordView { metadata: new_metadata, ..record_at(pre, record_id) };
        let post = StoreView {
            records: pre.records.update(record_id - 1, updated),
            events: pre.events.push(EventView::MetadataUpdated { record_id, authority: caller }),
        };
        (post, Ok(()))
    }
}

/// The ledger: the only shared mutable state of the system.
pub struct LedgerStore {
    records: Vec<ActionRecord>,
    events: Vec<Event>,
}

impl View for LedgerStore {
    type V = StoreView;

    closed spec fn view(&self) -> StoreView {
        StoreView {
            records: self.records@.map_values(|r: ActionRecord| r@),
            events: self.events@.map_values(|e: Event| e@),
        }
    }
}

impl LedgerStore {
    /// An empty ledger: no records, no events.
    pub fn new() -> (r: LedgerStore)
        ensures
            r@.records == Seq::<RecordView>::empty(),
            r@.events == Seq::<EventView>::empty(),
            store_wf(r@),
    {
        let r = LedgerStore { records: Vec::new(), events: Vec::new() };
        proof {
            assert(r@.records =~= Seq::<RecordView>::empty());
            assert(r@.events =~= Seq::<EventView>::empty());
        }
        r
    }

    /// Validates the inputs, computes the digest of the payload, stores a
    /// fresh immutable record and appends a `Recorded` event; on any
    /// validation failure returns the specific error and changes nothing.
    pub fn store_action(&mut self, agent_id: String, action_type: u8, payload: &[u8], timestamp: i64, caller: String) -> (r: Result<u64, ErrorCode>)
        requires
            old(self)@.records.len() + 1 <= u64::MAX,
        ensures
            ({
                let (post, expected) = store_action_spec(old(self)@, agent_id@, action_type, payload@, timestamp, caller@);
                final(self)@ == post && r == expected
            }),
            store_wf(old(self)@) ==> store_wf(final(self)@),
    {
        let ghost pre = self@;
        let ghost g_agent: Seq<char> = agent_id@;
        let ghost g_caller: Seq<char> = caller@;

        let agent_len = agent_id.as_str().unicode_len();
        if agent_len == 0 || agent_len > MAX_AGENT_ID_LEN {
            return Err(ErrorCode::InvalidAgentId);
        }
        if payload.len() == 0 {
            return Err(ErrorCode::EmptyActionData);
        }
        if timestamp <= 0 {
            return Err(ErrorCode::InvalidTimestamp);
        }
        if ActionType::from_u8(action_type).is_none() {
            return Err(ErrorCode::InvalidActionType);
        }

        let digest = compute_digest(payload);
        let id = (self.records.len() as u64) + 1;
        let record = ActionRecord {
            agent_id: agent_id.clone(),
            action_type,
            digest,
            timestamp,
            authority: caller.clone(),
            metadata: String::new(),
        };
        self.records.push(record);
        self.events.push(Event::Recorded(ActionRecorded {
            record_id: id,
            agent_id,
            action_type,
            timestamp,
            authority: caller,
        }));

        proof {
            let (post, expected) = store_action_spec(pre, g_agent, action_type, payload@, timestamp, g_caller);
            assert(self@.records =~~= post.records);
            assert(self@.events =~~= post.events);
            assert(store_wf(pre) ==> store_wf(self@)) by {
                if store_wf(pre) {
                    assert forall|i: int| 0 <= i < self@.records.len() implies record_wf(#[trigger] self@.records[i]) by {
                        if i < pre.records.len() {
                            assert(self@.records[i] == pre.records[i]);
                        }
                    }
                }
            }
        }
        Ok(id)
    }

    /// Pure lookup of the record named by `record_id`.
    pub fn read(&self, record_id: u64) -> (r: Result<&ActionRecord, ErrorCode>)
        ensures
            match r {
                Ok(rec) => has_record(self@, record_id) && rec@ == record_at(self@, record_id),
                Err(e) => !has_record(self@, record_id) && e == ErrorCode::RecordNotFound,
            },
    {
        if record_id == 0 || record_id > (self.records.len() as u64) {
            return Err(ErrorCode::RecordNotFound);
        }
        let idx = (record_id - 1) as usize;
        Ok(&self.records[idx])
    }

    /// Computes the digest of the re-submitted payload and reports whether
    /// it equals the stored one, appending a `Verified` event carrying the
    /// outcome either way; records never change.
    pub fn verify_action(&mut self, record_id: u64, payload: &[u8], caller: String) -> (r: Result<bool, ErrorCode>)
        ensures
            ({
                let (post, expected) = verify_action_spec(old(self)@, record_id, payload@, caller@);
                final(self)@ == post && r == expected
            }),
            final(self)@.records == old(self)@.records,
    {
        let ghost pre = self@;
        let ghost g_caller: Seq<char> = caller@;

        if payload.len() == 0 {
            return Err(ErrorCode::EmptyActionData);
        }
        if record_id == 0 || record_id > (self.records.len() as u64) {
            return Err(ErrorCode::RecordNotFound);
        }
        let idx = (record_id - 1) as usize;
        let digest = compute_digest(payload);
        let verified = digests_equal(digest.as_slice(), self.records[idx].digest.as_slice());
        self.events.push(Event::Verified(ActionVerified { record_id, verified, verifier: caller }));

        proof {
            let (post, expected) = verify_action_spec(pre, record_id, payload@, g_caller);
            assert(self@.events =~~= post.events);
        }
        Ok(verified)
    }

    /// Replaces the metadata of the named record, only when the caller is
    /// its recorded authority; every other field stays as it was, and on
    /// failure the record is untouched.
    pub fn update_metadata(&mut self, record_id: u64, new_metadata: String, caller: String) -> (r: Result<(), ErrorCode>)
        requires
            valid_metadata(new_metadata@),
        ensures
            ({
                let (post, expected) = update_metadata_spec(old(self)@, record_id, new_metadata@, caller@);
                final(self)@ == post && r == expected
            }),
            store_wf(old(self)@) ==> store_wf(final(self)@),
    {
        let ghost pre = self@;
        let ghost g_meta: Seq<char> = new_metadata@;
        let ghost g_caller: Seq<char> = caller@;

        if record_id == 0 || record_id > (self.records.len() as u64) {
            return Err(ErrorCode::RecordNotFound);
        }
        let idx = (record_id - 1) as usize;
        if !(self.records[idx].authority == caller) {
            return Err(ErrorCode::UnauthorizedMetadataUpdate);
        }

        let mut record = self.records.remove(idx);
        record.metadata = new_metadata;
        self.records.insert(idx, record);
        self.events.push(Event::MetadataUpdated(MetadataUpdated { record_id, authority: caller }));

        proof {
            let (post, expected) = update_metadata_spec(pre, record_id, g_meta, g_caller);
            assert(self@.records =~~= post.records);
            assert(self@.events =~~= post.events);
            assert(store_wf(pre) ==> store_wf(self@)) by {
                if store_wf(pre) {
                    assert forall|i: int| 0 <= i < self@.records.len() implies record_wf(#[trigger] self@.records[i]) by {
                        if i != idx {
                            assert(self@.records[i] == pre.records[i]);
                        }
                    }
                }
            }
        }
        Ok(())
    }

    /// The number of stored records; the next created record gets the
    /// identifier one past it.
    pub fn record_count(&self) -> (n: usize)
        ensures
            n == self@.records.len(),
    {
        self.records.len()
    }

    /// The audit channel: every event emitted so far, in order of
    /// completion.
    pub fn events(&self) -> (r: &Vec<Event>)
        ensures
            r@.map_values(|e: Event| e@) == self@.events,
    {
        &self.events
    }
}

} // verus!
