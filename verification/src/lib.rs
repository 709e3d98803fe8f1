//! An integrity-verification ledger.
//!
//! Agents submit opaque byte payloads; the ledger stores a fixed-size
//! cryptographic digest of each payload in a record keyed by a fresh
//! identifier. Later callers re-submit a payload to confirm that it matches
//! what was originally recorded. A bounded metadata field may be updated
//! after creation, but only by the identity that created the record, and
//! such updates can never alter the stored digest.

pub mod action_type;
pub mod errors;
pub mod events;
pub mod hashing;
pub mod laws;
pub mod memory;
pub mod record;
pub mod store;
