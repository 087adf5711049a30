//! The message values that flow through the client: inbound records yielded
//! by the poll step, outbound records handed to the producer, per-send
//! delivery outcomes, offset-commit requests, and rebalance notifications.

use vstd::prelude::*;

verus! {

/// The timestamp attached to an inbound record by the broker or the
/// publishing client, or no timestamp at all.
#[derive(Clone, Copy, Debug, PartialEq, Eq, Structural)]
pub enum RecordTimestamp {
    NotAvailable,
    CreateTime(i64),
    LogAppendTime(i64),
}

/// One record yielded by the consumer's poll step. Key and payload arrive as
/// raw bytes and may be absent; headers arrive as ordered name/value pairs.
#[derive(Clone, Debug)]
pub struct InboundRecord {
    pub topic: String,
    pub partition: i32,
    pub offset: i64,
    pub key: Option<Vec<u8>>,
    pub payload: Option<Vec<u8>>,
    pub headers: Vec<(String, String)>,
    pub timestamp: RecordTimestamp,
}

/// One record handed to the producer for publication.
#[derive(Clone, Debug)]
pub struct OutboundRecord {
    pub topic: String,
    pub key: String,
    pub payload: String,
    pub headers: Vec<(String, String)>,
}

/// The terminal result of one dispatched outbound record: the partition and
/// offset the broker assigned on success, or the delivery error on failure.
#[derive(Clone, Debug)]
pub struct DeliveryOutcome {
    pub index: usize,
    pub success: bool,
    pub partition: i32,
    pub offset: i64,
    pub error: Option<String>,
}

/// An asynchronous offset-commit request for one processed record.
#[derive(Clone, Debug)]
pub struct CommitRequest {
    pub topic: String,
    pub partition: i32,
    pub offset: i64,
}

/// A partition-assignment change reported by the group coordinator. Purely
/// informational: the underlying client owns the subscription state.
#[derive(Clone, Debug)]
pub enum RebalanceEvent {
    Assigned(Vec<(String, i32)>),
    Revoked(Vec<(String, i32)>),
}

/// The bytes of an optional field, as a mathematical value.
pub open spec fn opt_bytes(field: Option<Vec<u8>>) -> Option<Seq<u8>> {
    match field {
        Option::None => Option::None,
        Option::Some(v) => Option::Some(v@),
    }
}

} // verus!
