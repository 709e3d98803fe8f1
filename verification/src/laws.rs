//! The laws of the ledger, stated over the spec-level models of the
//! operations and proved once for all stores and inputs.

use vstd::prelude::*;
use crate::errors::ErrorCode;
use crate::hashing::digest_of;
use crate::store::{StoreView, has_record, record_at, store_action_spec, update_metadata_spec, verify_action_spec};

verus! {

/// Round-trip: a payload that was just recorded verifies as a match, under
/// any identity, against the identifier that its creation returned.
pub proof fn lemma_round_trip(pre: StoreView, agent_id: Seq<char>, action_type: u8, payload: Seq<u8>, timestamp: i64, creator: Seq<char>, checker: Seq<char>)
    requires
        pre.records.len() + 1 <= u64::MAX,
        store_action_spec(pre, agent_id, action_type, payload, timestamp, creator).1 is Ok,
    ensures
        ({
            let (post, res) = store_action_spec(pre, agent_id, action_type, payload, timestamp, creator);
            &&& res == Ok::<u64, ErrorCode>((pre.records.len() + 1) as u64)
            &&& verify_action_spec(post, (pre.records.len() + 1) as u64, payload, checker).1 == Ok::<bool, ErrorCode>(true)
        }),
{
    let (post, res) = store_action_spec(pre, agent_id, action_type, payload, timestamp, creator);
    let id = (pre.records.len() + 1) as u64;
    assert(record_at(post, id) == post.records.last());
}

/// Tamper detection: a payload whose digest differs from the recorded
/// payload's digest verifies as a mismatch, not as an error. (Payloads that
/// differ but collide under the hash are the one case this cannot cover:
/// collision resistance is an assumption on the hash, not a provable fact.)
pub proof fn lemma_tamper_detection(pre: StoreView, agent_id: Seq<char>, action_type: u8, payload: Seq<u8>, other: Seq<u8>, timestamp: i64, creator: Seq<char>, checker: Seq<char>)
    requires
        pre.records.len() + 1 <= u64::MAX,
        store_action_spec(pre, agent_id, action_type, payload, timestamp, creator).1 is Ok,
        other.len() > 0,
        digest_of(other) != digest_of(payload),
    ensures
        ({
            let (post, res) = store_action_spec(pre, agent_id, action_type, payload, timestamp, creator);
            verify_action_spec(post, (pre.records.len() + 1) as u64, other, checker).1 == Ok::<bool, ErrorCode>(false)
        }),
{
    let (post, res) = store_action_spec(pre, agent_id, action_type, payload, timestamp, creator);
    let id = (pre.records.len() + 1) as u64;
    assert(record_at(post, id) == post.records.last());
}

/// Identifier stability: creating a record never disturbs an existing one.
/// An identifier, once assigned, keeps naming the same record, whatever is
/// created afterwards.
pub proof fn lemma_create_preserves_existing(pre: StoreView, agent_id: Seq<char>, action_type: u8, payload: Seq<u8>, timestamp: i64, creator: Seq<char>, id: u64)
    requires
        has_record(pre, id),
    ensures
        ({
            let (post, res) = store_action_spec(pre, agent_id, action_type, payload, timestamp, creator);
            &&& has_record(post, id)
            &&& record_at(post, id) == record_at(pre, id)
        }),
{
}

/// One call of `update_metadata`, for stating facts about whole sequences
/// of calls.
pub struct MetadataUpdateCall {
    pub record_id: u64,
    pub new_metadata: Seq<char>,
    pub caller: Seq<char>,
}

/// The store after a sequence of `update_metadata` calls, applied in order,
/// each taking effect or failing exactly as the single-call model says.
pub open spec fn apply_updates(pre: StoreView, calls: Seq<MetadataUpdateCall>) -> StoreView
    decreases calls.len(),
{
    if calls.len() == 0 {
        pre
    } else {
        apply_updates(
            update_metadata_spec(pre, calls[0].record_id, calls[0].new_metadata, calls[0].caller).0,
            calls.drop_first(),
        )
    }
}

/// Digest immutability: however many metadata updates run, authorized or
/// rejected, every record keeps the digest it was created with — and its
/// agent, action type, timestamp and authority besides. No record appears
/// or disappears.
pub proof fn lemma_digest_immutable(pre: StoreView, calls: Seq<MetadataUpdateCall>, i: int)
    requires
        0 <= i < pre.records.len(),
    ensures
        ({
            let post = apply_updates(pre, calls);
            &&& post.records.len() == pre.records.len()
            &&& post.records[i].digest == pre.records[i].digest
            &&& post.records[i].agent_id == pre.records[i].agent_id
            &&& post.records[i].action_type == pre.records[i].action_type
            &&& post.records[i].timestamp == pre.records[i].timestamp
            &&& post.records[i].authority == pre.records[i].authority
        }),
    decreases calls.len(),
{
    if calls.len() > 0 {
        let mid = update_metadata_spec(pre, calls[0].record_id, calls[0].new_metadata, calls[0].caller).0;
        assert(mid.records.len() == pre.records.len());
        assert(mid.records[i].digest == pre.records[i].digest);
        lemma_digest_immutable(mid, calls.drop_first(), i);
    }
}

/// Authorization enforcement: a caller other than the recorded authority is
/// refused with `UnauthorizedMetadataUpdate`, and the store — metadata
/// included — is exactly what it was.
pub proof fn lemma_unauthorized_update_rejected(pre: StoreView, record_id: u64, new_metadata: Seq<char>, caller: Seq<char>)
    requires
        has_record(pre, record_id),
        caller != record_at(pre, record_id).authority,
    ensures
        update_metadata_spec(pre, record_id, new_metadata, caller) == (pre, Err::<(), ErrorCode>(ErrorCode::UnauthorizedMetadataUpdate)),
{
}

/// Lookup failure: an identifier that names no record is refused with
/// `RecordNotFound` by both verification and metadata update, and the store
/// is exactly what it was.
pub proof fn lemma_unknown_id_rejected(pre: StoreView, record_id: u64, payload: Seq<u8>, new_metadata: Seq<char>, caller: Seq<char>)
    requires
        !has_record(pre, record_id),
        payload.len() > 0,
    ensures
        verify_action_spec(pre, record_id, payload, caller) == (pre, Err::<bool, ErrorCode>(ErrorCode::RecordNotFound)),
        update_metadata_spec(pre, record_id, new_metadata, caller) == (pre, Err::<(), ErrorCode>(ErrorCode::RecordNotFound)),
{
}

} // verus!
