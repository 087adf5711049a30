//! The consumer side: per-record processing (UTF-8 decode of key and
//! payload, header listing, the structured log line, the asynchronous commit
//! request) and the lifecycle state machine of the poll loop. The loop that
//! awaits the next record runs outside this crate and feeds each event to
//! `Consumer::handle_event`; only a shutdown request ever closes the
//! consumer.

use vstd::prelude::*;
use vstd::string::StringExecFns;
use vstd::utf8::{decode_utf8, valid_utf8};
use crate::config::{consumer_flaw, consumer_ok, ConfigError, ConsumerConfig};
use crate::custom_context::{
    commit_ack_line, post_rebalance_line, pre_rebalance_line, CustomContext,
};
use crate::records::{opt_bytes, CommitRequest, InboundRecord, RebalanceEvent, RecordTimestamp};
use crate::text::{
    dec_int, dec_nat, i64_to_dec, join_strings, join_with, quote, quoted, u64_to_dec,
    utf8_decode_bytes,
};

verus! {

/// The text an optional byte field decodes to: absent fields and fields
/// that are not valid UTF-8 both decode to the empty text.
pub open spec fn decoded_text(field: Option<Seq<u8>>) -> Seq<char> {
    match field {
        Option::None => Seq::empty(),
        Option::Some(b) => if valid_utf8(b) {
            decode_utf8(b)
        } else {
            Seq::empty()
        },
    }
}

/// Decoding warns exactly when the field is present but not valid UTF-8.
pub open spec fn decode_warns(field: Option<Seq<u8>>) -> bool {
    match field {
        Option::None => false,
        Option::Some(b) => !valid_utf8(b),
    }
}

/// Decodes an optional byte field, reporting whether a warning is owed.
/// A malformed field is coerced to empty text and never stops processing.
pub fn decode_text_field(field: &Option<Vec<u8>>) -> (r: (String, bool))
    ensures
        r.0@ == decoded_text(opt_bytes(*field)),
        r.1 == decode_warns(opt_bytes(*field)),
{
    match field {
        Option::None => (String::new(), false),
        Option::Some(v) => match utf8_decode_bytes(v.as_slice()) {
            Option::Some(s) => (s, false),
            Option::None => (String::new(), true),
        },
    }
}

/// The text of one header entry: its position, then the quoted name and
/// quoted value.
pub open spec fn header_entry(index: nat, name: Seq<char>, value: Seq<char>) -> Seq<char> {
    dec_nat(index) + ":"@ + quoted(name) + "=>"@ + quoted(value)
}

/// The entry texts of a header sequence, in header order.
pub open spec fn header_entries(h: Seq<(Seq<char>, Seq<char>)>) -> Seq<Seq<char>> {
    Seq::new(h.len(), |i: int| header_entry(i as nat, h[i].0, h[i].1))
}

/// The rendered header listing: all entries joined by a comma and a space.
/// A record without headers yields the empty listing.
pub open spec fn header_listing(h: Seq<(Seq<char>, Seq<char>)>) -> Seq<char> {
    join_with(header_entries(h), ", "@)
}

/// Law: a record with no headers renders the empty header listing.
pub proof fn lemma_header_listing_empty(h: Seq<(Seq<char>, Seq<char>)>)
    requires
        h.len() == 0,
    ensures
        header_listing(h) == Seq::<char>::empty(),
{
    assert(header_entries(h).len() == 0);
}

/// Law: the listing of N+1 headers extends the listing of the first N by
/// exactly one entry, numbered by its position and separated by a comma and
/// a space when entries precede it. With the empty case, the listing of N
/// headers therefore holds exactly N entries, in header order.
pub proof fn lemma_header_listing_extends(
    h: Seq<(Seq<char>, Seq<char>)>,
    name: Seq<char>,
    value: Seq<char>,
)
    ensures
        h.len() == 0 ==> header_listing(h.push((name, value))) == header_entry(0, name, value),
        h.len() > 0 ==> header_listing(h.push((name, value))) == header_listing(h) + ", "@
            + header_entry(h.len() as nat, name, value),
{
    let hp = h.push((name, value));
    assert(header_entries(hp).drop_last() =~= header_entries(h));
    assert(header_entries(hp).last() == header_entry(h.len() as nat, name, value));
    if h.len() == 0 {
        assert(header_listing(hp) == header_entries(hp)[0]);
    }
}

/// Renders the header listing of a record.
pub fn render_header_listing(headers: &Vec<(String, String)>) -> (r: String)
    ensures
        r@ == header_listing(headers.deep_view()),
{
    let ghost all = headers.deep_view();
    let mut entries: Vec<String> = Vec::new();
    let mut i: usize = 0;
    while i < headers.len()
        invariant
            i <= headers.len(),
            all == headers.deep_view(),
            all.len() == headers.len(),
            entries@.len() == i,
            forall|j: int| 0 <= j < i ==> entries@[j]@ == #[trigger] header_entries(all)[j],
        decreases headers.len() - i,
    {
        let mut entry = u64_to_dec(i as u64);
        entry.append(":");
        let quoted_name = quote(headers[i].0.as_str());
        entry.append(quoted_name.as_str());
        entry.append("=>");
        let quoted_value = quote(headers[i].1.as_str());
        entry.append(quoted_value.as_str());
        proof {
            assert(all[i as int] == (headers@[i as int].0@, headers@[i as int].1@));
            assert(entry@ =~= header_entry(i as nat, all[i as int].0, all[i as int].1));
        }
        entries.push(entry);
        i = i + 1;
    }
    proof {
        assert(entries.deep_view() =~= header_entries(all));
    }
    join_strings(&entries, ", ")
}

/// The text of a record timestamp.
pub open spec fn timestamp_text(t: RecordTimestamp) -> Seq<char> {
    match t {
        RecordTimestamp::NotAvailable => "NotAvailable"@,
        RecordTimestamp::CreateTime(ms) => "CreateTime("@ + dec_int(ms as int) + ")"@,
        RecordTimestamp::LogAppendTime(ms) => "LogAppendTime("@ + dec_int(ms as int) + ")"@,
    }
}

/// Renders a record timestamp.
pub fn render_timestamp(t: &RecordTimestamp) -> (r: String)
    ensures
        r@ == timestamp_text(*t),
{
    match t {
        RecordTimestamp::NotAvailable => String::from_str("NotAvailable"),
        RecordTimestamp::CreateTime(ms) => {
            let mut r = String::from_str("CreateTime(");
            let digits = i64_to_dec(*ms);
            r.append(digits.as_str());
            r.append(")");
            proof {
                assert(r@ =~= timestamp_text(*t));
            }
            r
        },
        RecordTimestamp::LogAppendTime(ms) => {
            let mut r = String::from_str("LogAppendTime(");
            let digits = i64_to_dec(*ms);
            r.append(digits.as_str());
            r.append(")");
            proof {
                assert(r@ =~= timestamp_text(*t));
            }
            r
        },
    }
}

/// The structured log line emitted for one processed record.
pub open spec fn record_log_line(r: InboundRecord) -> Seq<char> {
    "key='"@ + decoded_text(opt_bytes(r.key)) + "' payload='"@ + decoded_text(opt_bytes(r.payload))
        + "', topic="@ + r.topic@ + " partition="@ + dec_int(r.partition as int) + ", offset="@
        + dec_int(r.offset as int) + " timestamp="@ + timestamp_text(r.timestamp) + " headers=["@
        + header_listing(r.headers.deep_view()) + "]"@
}

/// The warning line for a transient poll-level error.
pub open spec fn poll_warning_line(message: Seq<char>) -> Seq<char> {
    "Kafka error: "@ + message
}

/// Everything the processing step derives from one inbound record: the
/// decoded key and payload, the warnings owed for malformed fields, the log
/// line, and the asynchronous commit request for the record's offset.
#[derive(Clone, Debug)]
pub struct ProcessedRecord {
    pub key: String,
    pub payload: String,
    pub key_warning: bool,
    pub payload_warning: bool,
    pub log_line: String,
    pub commit: CommitRequest,
}

/// The full contract of the processing step for one record.
pub open spec fn processed_matches(p: ProcessedRecord, r: InboundRecord) -> bool {
    &&& p.key@ == decoded_text(opt_bytes(r.key))
    &&& p.payload@ == decoded_text(opt_bytes(r.payload))
    &&& p.key_warning == decode_warns(opt_bytes(r.key))
    &&& p.payload_warning == decode_warns(opt_bytes(r.payload))
    &&& p.log_line@ == record_log_line(r)
    &&& p.commit.topic@ == r.topic@
    &&& p.commit.partition == r.partition
    &&& p.commit.offset == r.offset
}

/// Law: a payload that is not valid UTF-8 decodes to the empty text with a
/// warning, and the record's offset is still submitted for commit.
pub proof fn lemma_invalid_payload_still_committed(p: ProcessedRecord, r: InboundRecord)
    requires
        processed_matches(p, r),
        r.payload matches Some(b) && !valid_utf8(b@),
    ensures
        p.payload@ == Seq::<char>::empty(),
        p.payload_warning,
        p.commit.topic@ == r.topic@,
        p.commit.partition == r.partition,
        p.commit.offset == r.offset,
{
}

/// Processes one inbound record: decodes its key and payload, renders the
/// header listing and the structured log line, and prepares the asynchronous
/// commit request. Malformed fields are coerced to empty text with a
/// warning; they never fail the record, which is still logged and committed.
pub fn process_record(r: &InboundRecord) -> (p: ProcessedRecord)
    ensures
        processed_matches(p, *r),
{
    let (key, key_warning) = decode_text_field(&r.key);
    let (payload, payload_warning) = decode_text_field(&r.payload);
    let mut line = String::from_str("key='");
    line.append(key.as_str());
    line.append("' payload='");
    line.append(payload.as_str());
    line.append("', topic=");
    line.append(r.topic.as_str());
    line.append(" partition=");
    let partition_digits = i64_to_dec(r.partition as i64);
    line.append(partition_digits.as_str());
    line.append(", offset=");
    let offset_digits = i64_to_dec(r.offset);
    line.append(offset_digits.as_str());
    line.append(" timestamp=");
    let timestamp = render_timestamp(&r.timestamp);
    line.append(timestamp.as_str());
    line.append(" headers=[");
    let listing = render_header_listing(&r.headers);
    line.append(listing.as_str());
    line.append("]");
    proof {
        assert(line@ =~= record_log_line(*r));
    }
    ProcessedRecord {
        key,
        payload,
        key_warning,
        payload_warning,
        log_line: line,
        commit: CommitRequest { topic: r.topic.clone(), partition: r.partition, offset: r.offset },
    }
}

/// Where the consumer stands in its lifecycle. A consumer value exists only
/// once its subscription is validated, so the pre-subscription state has no
/// variant here; `Closed` is reached only through a shutdown request.
#[derive(Clone, Copy, Debug, PartialEq, Eq, Structural)]
pub enum ConsumerPhase {
    Subscribed,
    Polling,
    Rebalancing,
    Closed,
}

/// One event observed by the poll loop.
#[derive(Debug)]
pub enum PollEvent {
    /// The poll step yielded a record.
    Received(InboundRecord),
    /// The poll step failed transiently; the message describes the error.
    PollFailed(String),
    /// The group coordinator is about to change the assignment.
    PreRebalance(RebalanceEvent),
    /// The assignment has settled.
    PostRebalance(RebalanceEvent),
    /// The broker acknowledged or rejected an earlier offset commit.
    CommitAck(Result<(), String>),
    /// The process is shutting down.
    Shutdown,
}

/// What the loop around the consumer must do next. Log lines are handed out
/// as text; the loop owns the log sink and the commit call.
#[derive(Clone, Debug)]
pub enum StepAction {
    /// Log the record's warnings and log line, then commit its offset
    /// asynchronously, without waiting for the acknowledgment.
    ProcessAndCommit(ProcessedRecord),
    /// Log a warning and keep polling.
    Warn(String),
    /// Log a telemetry line; nothing else changes.
    Observe(String),
    /// Stop polling and release the connection.
    Stop,
}

/// The one action owed for an event, whatever the consumer's phase: a
/// record is processed and committed, a transient poll error warns, a
/// rebalance or commit acknowledgment passes through as telemetry, and a
/// shutdown request stops the loop.
pub open spec fn action_for_event(event: PollEvent, a: StepAction) -> bool {
    &&& (event matches PollEvent::Received(r) ==> a matches StepAction::ProcessAndCommit(p)
        && processed_matches(p, r))
    &&& (event matches PollEvent::PollFailed(msg) ==> a matches StepAction::Warn(w) && w@
        == poll_warning_line(msg@))
    &&& (event matches PollEvent::PreRebalance(e) ==> a matches StepAction::Observe(line) && line@
        == pre_rebalance_line(e))
    &&& (event matches PollEvent::PostRebalance(e) ==> a matches StepAction::Observe(line) && line@
        == post_rebalance_line(e))
    &&& (event matches PollEvent::CommitAck(res) ==> a matches StepAction::Observe(line) && line@
        == commit_ack_line(res))
    &&& (event is Shutdown ==> a is Stop)
}

/// A subscription to a set of topics under a consumer-group id, together
/// with its telemetry context and its place in the lifecycle.
#[derive(Clone, Debug)]
pub struct Consumer {
    pub config: ConsumerConfig,
    pub context: CustomContext,
    pub phase: ConsumerPhase,
}

impl Consumer {
    /// Validates the configuration and takes the subscription. Construction
    /// is the only fatal step: a faulty configuration is reported before any
    /// network attempt, and the loop never starts.
    pub fn subscribe(config: ConsumerConfig, context: CustomContext) -> (r: Result<
        Consumer,
        ConfigError,
    >)
        ensures
            r is Ok <==> consumer_ok(config),
            r matches Ok(c) ==> c.config == config && c.phase == ConsumerPhase::Subscribed,
            r matches Err(e) ==> Option::Some(e) == consumer_flaw(config),
    {
        match config.validate() {
            Result::Ok(()) => Result::Ok(
                Consumer { config, context, phase: ConsumerPhase::Subscribed },
            ),
            Result::Err(e) => Result::Err(e),
        }
    }

    /// Advances the lifecycle by one observed event and says what the loop
    /// must do. A record moves the consumer to polling and yields the
    /// processed record to log and commit; a transient poll error only
    /// warns; rebalance notifications pass through as telemetry and never
    /// gate processing; a commit acknowledgment never changes the phase.
    /// Only a shutdown request closes the consumer.
    pub fn handle_event(&mut self, event: PollEvent) -> (a: StepAction)
        requires
            old(self).phase != ConsumerPhase::Closed,
        ensures
            final(self).config == old(self).config,
            final(self).phase is Closed <==> event is Shutdown,
            action_for_event(event, a),
            event is Received ==> final(self).phase is Polling,
            event is PollFailed ==> final(self).phase is Polling,
            event is PreRebalance ==> final(self).phase is Rebalancing,
            event is PostRebalance ==> final(self).phase is Polling,
            event is CommitAck ==> final(self).phase == old(self).phase,
    {
        match event {
            PollEvent::Received(r) => {
                self.phase = ConsumerPhase::Polling;
                StepAction::ProcessAndCommit(process_record(&r))
            },
            PollEvent::PollFailed(msg) => {
                self.phase = ConsumerPhase::Polling;
                let mut w = String::from_str("Kafka error: ");
                w.append(msg.as_str());
                StepAction::Warn(w)
            },
            PollEvent::PreRebalance(e) => {
                self.phase = ConsumerPhase::Rebalancing;
                StepAction::Observe(self.context.pre_rebalance(&e))
            },
            PollEvent::PostRebalance(e) => {
                self.phase = ConsumerPhase::Polling;
                StepAction::Observe(self.context.post_rebalance(&e))
            },
            PollEvent::CommitAck(res) => StepAction::Observe(self.context.commit_callback(&res)),
            PollEvent::Shutdown => {
                self.phase = ConsumerPhase::Closed;
                StepAction::Stop
            },
        }
    }

    /// Drives the consumer over a bounded event source: events are handled
    /// strictly in arrival order, one action per event and index-aligned
    /// with its event, until a shutdown request closes the consumer or the
    /// source is drained. Only a shutdown ever ends the loop early; in
    /// particular a poll failure never does.
    pub fn run_events(&mut self, events: Vec<PollEvent>) -> (actions: Vec<StepAction>)
        requires
            old(self).phase != ConsumerPhase::Closed,
        ensures
            final(self).config == old(self).config,
            actions@.len() <= events@.len(),
            forall|i: int|
                0 <= i < actions@.len() ==> action_for_event(events@[i], #[trigger] actions@[i]),
            forall|i: int| 0 <= i < actions@.len() - 1 ==> !((#[trigger] events@[i]) is Shutdown),
            final(self).phase is Closed <==> (actions@.len() > 0 && events@[actions@.len()
                - 1] is Shutdown),
            !(final(self).phase is Closed) ==> actions@.len() == events@.len(),
    {
        let ghost all = events@;
        let mut pending = events;
        let mut actions: Vec<StepAction> = Vec::new();
        while pending.len() > 0 && self.phase != ConsumerPhase::Closed
            invariant
                self.config == old(self).config,
                actions@.len() + pending@.len() == all.len(),
                pending@ == all.skip(actions@.len() as int),
                forall|i: int|
                    0 <= i < actions@.len() ==> action_for_event(all[i], #[trigger] actions@[i]),
                forall|i: int| 0 <= i < actions@.len() - 1 ==> !((#[trigger] all[i]) is Shutdown),
                self.phase is Closed <==> (actions@.len() > 0 && all[actions@.len()
                    - 1] is Shutdown),
            decreases pending@.len(),
        {
            let event = pending.remove(0);
            proof {
                assert(event == all[actions@.len() as int]);
                assert(pending@ =~= all.skip(actions@.len() as int + 1));
            }
            let action = self.handle_event(event);
            actions.push(action);
        }
        actions
    }
}

} // verus!
