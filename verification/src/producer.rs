//! The producer side: building the demonstration batch of keyed, headered
//! records, and aggregating the per-send delivery results into index-stable
//! outcomes. The sends themselves are dispatched concurrently outside this
//! crate; the results arrive here in dispatch order, whatever order the
//! acknowledgments came in.

use vstd::prelude::*;
use vstd::string::StringExecFns;
use crate::records::{DeliveryOutcome, OutboundRecord};
use crate::text::{dec_nat, u64_to_dec};

verus! {

/// The synthetic key of the i-th demonstration record.
pub open spec fn demo_key(i: nat) -> Seq<char> {
    "Key "@ + dec_nat(i)
}

/// The synthetic payload of the i-th demonstration record.
pub open spec fn demo_payload(i: nat) -> Seq<char> {
    "Message "@ + dec_nat(i)
}

/// The fixed demonstration header carried by every record of the batch when
/// the caller supplies none.
pub open spec fn demo_header() -> (Seq<char>, Seq<char>) {
    ("header_key"@, "header_value"@)
}

/// Builds the demonstration batch: `count` records for one topic, each with
/// its synthetic key/payload pair and the fixed demonstration header.
pub fn build_demo_batch(topic: &String, count: usize) -> (batch: Vec<OutboundRecord>)
    ensures
        batch@.len() == count,
        forall|i: int|
            0 <= i < count ==> {
                &&& (#[trigger] batch@[i]).topic@ == topic@
                &&& batch@[i].key@ == demo_key(i as nat)
                &&& batch@[i].payload@ == demo_payload(i as nat)
                &&& batch@[i].headers.deep_view() == seq![demo_header()]
            },
{
    let mut batch: Vec<OutboundRecord> = Vec::new();
    let mut i: usize = 0;
    while i < count
        invariant
            i <= count,
            batch@.len() == i,
            forall|j: int|
                0 <= j < i ==> {
                    &&& (#[trigger] batch@[j]).topic@ == topic@
                    &&& batch@[j].key@ == demo_key(j as nat)
                    &&& batch@[j].payload@ == demo_payload(j as nat)
                    &&& batch@[j].headers.deep_view() == seq![demo_header()]
                },
        decreases count - i,
    {
        let mut key = String::from_str("Key ");
        let key_digits = u64_to_dec(i as u64);
        key.append(key_digits.as_str());
        let mut payload = String::from_str("Message ");
        let payload_digits = u64_to_dec(i as u64);
        payload.append(payload_digits.as_str());
        let mut headers: Vec<(String, String)> = Vec::new();
        headers.push((String::from_str("header_key"), String::from_str("header_value")));
        proof {
            assert(headers.deep_view() =~~= seq![demo_header()]);
        }
        batch.push(OutboundRecord { topic: topic.clone(), key, payload, headers });
        i = i + 1;
    }
    batch
}

/// How one delivery outcome must reflect the result of the send dispatched
/// at the same index. A failed send keeps the sentinel partition and offset
/// of the underlying client, `-1`.
pub open spec fn outcome_matches(out: DeliveryOutcome, i: int, res: Result<(i32, i64), String>) -> bool {
    &&& out.index == i
    &&& out.success == res is Ok
    &&& (res matches Ok(po) ==> out.partition == po.0 && out.offset == po.1 && out.error is None)
    &&& (res matches Err(e) ==> out.partition == -1 && out.offset == -1 && (out.error matches Some(
        m,
    ) && m@ == e@))
}

/// Turns the per-send delivery results, in dispatch order, into the batch's
/// terminal outcome set: exactly one outcome per dispatched record, index
/// aligned to the input order. A per-record failure is recorded in its own
/// outcome and never escalates to a batch-level error.
pub fn collect_outcomes(results: &Vec<Result<(i32, i64), String>>) -> (out: Vec<DeliveryOutcome>)
    ensures
        out@.len() == results@.len(),
        forall|i: int| 0 <= i < results@.len() ==> outcome_matches(#[trigger] out@[i], i, results@[i]),
{
    let mut out: Vec<DeliveryOutcome> = Vec::new();
    let mut i: usize = 0;
    while i < results.len()
        invariant
            i <= results.len(),
            out@.len() == i,
            forall|j: int| 0 <= j < i ==> outcome_matches(#[trigger] out@[j], j, results@[j]),
        decreases results.len() - i,
    {
        let outcome = match &results[i] {
            Result::Ok(po) => DeliveryOutcome {
                index: i,
                success: true,
                partition: po.0,
                offset: po.1,
                error: Option::None,
            },
            Result::Err(e) => DeliveryOutcome {
                index: i,
                success: false,
                partition: -1,
                offset: -1,
                error: Option::Some(e.clone()),
            },
        };
        out.push(outcome);
        i = i + 1;
    }
    out
}

/// Two outcomes are structurally equivalent when they agree on index,
/// success, placement and error text.
pub open spec fn outcome_equivalent(a: DeliveryOutcome, b: DeliveryOutcome) -> bool {
    &&& a.index == b.index
    &&& a.success == b.success
    &&& a.partition == b.partition
    &&& a.offset == b.offset
    &&& (a.error is Some <==> b.error is Some)
    &&& (a.error matches Some(ma) ==> b.error matches Some(mb) && ma@ == mb@)
}

/// Law: a batch of N dispatched sends yields exactly N outcomes, index
/// aligned to dispatch order, whatever order the acknowledgments arrived
/// in: the outcome at each index reports the result at that index alone.
pub proof fn lemma_batch_outcomes_index_aligned(
    results: Seq<Result<(i32, i64), String>>,
    out: Seq<DeliveryOutcome>,
)
    requires
        out.len() == results.len(),
        forall|i: int| 0 <= i < results.len() ==> outcome_matches(#[trigger] out[i], i, results[i]),
    ensures
        out.len() == results.len(),
        forall|i: int| 0 <= i < out.len() ==> (#[trigger] out[i]).index == i,
        forall|i: int| 0 <= i < out.len() ==> (#[trigger] out[i]).success == results[i] is Ok,
{
}

/// Law: re-running the batch with the same records and the same per-send
/// results yields a structurally equivalent outcome set: same count, same
/// index alignment, outcome by outcome. Nothing is deduplicated against the
/// earlier run: this layer gives no at-most-once guarantee.
pub proof fn lemma_publish_batch_idempotent(
    results: Seq<Result<(i32, i64), String>>,
    first: Seq<DeliveryOutcome>,
    second: Seq<DeliveryOutcome>,
)
    requires
        first.len() == results.len(),
        forall|i: int| 0 <= i < results.len() ==> outcome_matches(#[trigger] first[i], i, results[i]),
        second.len() == results.len(),
        forall|i: int|
            0 <= i < results.len() ==> outcome_matches(#[trigger] second[i], i, results[i]),
    ensures
        first.len() == second.len(),
        forall|i: int| 0 <= i < first.len() ==> outcome_equivalent(#[trigger] first[i], second[i]),
{
    assert forall|i: int| 0 <= i < first.len() implies outcome_equivalent(
        #[trigger] first[i],
        second[i],
    ) by {
        assert(outcome_matches(first[i], i, results[i]));
        assert(outcome_matches(second[i], i, results[i]));
    }
}

} // verus!
