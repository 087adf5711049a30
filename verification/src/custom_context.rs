//! The passive telemetry context attached to a consumer. Its hooks are
//! invoked around partition rebalances and on offset-commit acknowledgments;
//! each one only renders a structured telemetry line. None of them blocks,
//! fails, or touches subscription state: the underlying client owns
//! reassignment.

use vstd::prelude::*;
use vstd::string::StringExecFns;
use crate::records::RebalanceEvent;
use crate::text::{dec_int, i64_to_dec, join_strings, join_with, quote, quoted};

verus! {

/// The text of one topic/partition pair in a rebalance listing.
pub open spec fn partition_entry_text(topic: Seq<char>, partition: i32) -> Seq<char> {
    quoted(topic) + ":"@ + dec_int(partition as int)
}

/// The texts of all pairs of a rebalance listing, in assignment order.
pub open spec fn partition_entries(ps: Seq<(Seq<char>, i32)>) -> Seq<Seq<char>> {
    Seq::new(ps.len(), |i: int| partition_entry_text(ps[i].0, ps[i].1))
}

/// The rebalance listing: the pairs joined by a comma and a space.
pub open spec fn partition_list_text(ps: Seq<(Seq<char>, i32)>) -> Seq<char> {
    join_with(partition_entries(ps), ", "@)
}

/// The text of a rebalance notification.
pub open spec fn rebalance_text(e: RebalanceEvent) -> Seq<char> {
    match e {
        RebalanceEvent::Assigned(ps) => "Assigned(["@ + partition_list_text(ps.deep_view())
            + "])"@,
        RebalanceEvent::Revoked(ps) => "Revoked(["@ + partition_list_text(ps.deep_view()) + "])"@,
    }
}

/// The telemetry line rendered before a rebalance takes effect.
pub open spec fn pre_rebalance_line(e: RebalanceEvent) -> Seq<char> {
    "Pre rebalance "@ + rebalance_text(e)
}

/// The telemetry line rendered once an assignment has settled.
pub open spec fn post_rebalance_line(e: RebalanceEvent) -> Seq<char> {
    "Post rebalance "@ + rebalance_text(e)
}

/// The telemetry line rendered when the broker acknowledges or rejects an
/// offset commit.
pub open spec fn commit_ack_line(result: Result<(), String>) -> Seq<char> {
    "Committing offsets: "@ + match result {
        Result::Ok(_) => "Ok(())"@,
        Result::Err(e) => "Err("@ + e@ + ")"@,
    }
}

fn render_partition_list(ps: &Vec<(String, i32)>) -> (r: String)
    ensures
        r@ == partition_list_text(ps.deep_view()),
{
    let ghost all = ps.deep_view();
    let mut entries: Vec<String> = Vec::new();
    let mut i: usize = 0;
    while i < ps.len()
        invariant
            i <= ps.len(),
            all == ps.deep_view(),
            all.len() == ps.len(),
            entries@.len() == i,
            forall|j: int| 0 <= j < i ==> entries@[j]@ == #[trigger] partition_entries(all)[j],
        decreases ps.len() - i,
    {
        let mut entry = quote(ps[i].0.as_str());
        entry.append(":");
        let digits = i64_to_dec(ps[i].1 as i64);
        entry.append(digits.as_str());
        proof {
            assert(all[i as int] == (ps@[i as int].0@, ps@[i as int].1));
            assert(entry@ =~= partition_entry_text(all[i as int].0, all[i as int].1));
        }
        entries.push(entry);
        i = i + 1;
    }
    proof {
        assert(entries.deep_view() =~= partition_entries(all));
    }
    join_strings(&entries, ", ")
}

fn render_rebalance(e: &RebalanceEvent) -> (r: String)
    ensures
        r@ == rebalance_text(*e),
{
    match e {
        RebalanceEvent::Assigned(ps) => {
            let mut r = String::from_str("Assigned([");
            let list = render_partition_list(ps);
            r.append(list.as_str());
            r.append("])");
            proof {
                assert(r@ =~= rebalance_text(*e));
            }
            r
        },
        RebalanceEvent::Revoked(ps) => {
            let mut r = String::from_str("Revoked([");
            let list = render_partition_list(ps);
            r.append(list.as_str());
            r.append("])");
            proof {
                assert(r@ =~= rebalance_text(*e));
            }
            r
        },
    }
}

/// The consumer's client context: read-only telemetry hooks around
/// rebalances and commit acknowledgments.
#[derive(Clone, Copy, Debug)]
pub struct CustomContext;

impl CustomContext {
    /// Renders the telemetry line for a rebalance that is about to happen.
    pub fn pre_rebalance(&self, rebalance: &RebalanceEvent) -> (line: String)
        ensures
            line@ == pre_rebalance_line(*rebalance),
    {
        let mut line = String::from_str("Pre rebalance ");
        let text = render_rebalance(rebalance);
        line.append(text.as_str());
        line
    }

    /// Renders the telemetry line for a settled rebalance.
    pub fn post_rebalance(&self, rebalance: &RebalanceEvent) -> (line: String)
        ensures
            line@ == post_rebalance_line(*rebalance),
    {
        let mut line = String::from_str("Post rebalance ");
        let text = render_rebalance(rebalance);
        line.append(text.as_str());
        line
    }

    /// Renders the telemetry line for an offset-commit acknowledgment. A
    /// rejected commit is only reported here: it is never retried and never
    /// stops the loop.
    pub fn commit_callback(&self, result: &Result<(), String>) -> (line: String)
        ensures
            line@ == commit_ack_line(*result),
    {
        let mut line = String::from_str("Committing offsets: ");
        match result {
            Result::Ok(_) => {
                line.append("Ok(())");
            },
            Result::Err(e) => {
                line.append("Err(");
                line.append(e.as_str());
                line.append(")");
            },
        }
        proof {
            assert(line@ =~= commit_ack_line(*result));
        }
        line
    }
}

} // verus!
