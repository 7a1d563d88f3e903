//! The poll–process–acknowledge core.
//!
//! Each poll cycle asks the queue client for at most one message. An empty
//! response is logged and the cycle ends; a received message is processed
//! synchronously: its body is extracted, the (possibly slow) business action
//! runs, and on success one deletion is attempted with the message's receipt
//! handle. A failing deletion is logged and survived — the message will be
//! redelivered by the queue after its visibility timeout, an accepted
//! at-least-once trade-off. A failing receive is logged and survived too.
//! After either outcome the loop sleeps a fixed interval and repeats.
//!
//! The functions here return reports instead of printing: what the worker
//! logs is part of the verified contract, and the unverified shell around
//! the library prints the lines and performs the sleeps.

use vstd::prelude::*;
use crate::errors::TransportError;
use crate::message::{extract_body, extract_receipt_handle, Message};
use crate::mock::MockClient;

verus! {

/// Seconds slept between poll cycles.
pub const POLL_INTERVAL_SECS: u64 = 10;

/// Seconds of simulated per-message workload (the business action).
pub const WORK_SECS: u64 = 250;

/// What one poll cycle decides to do with the received batch: either report
/// that nothing arrived, or process the first message. At most one message
/// is processed per cycle, never a batch.
pub enum CyclePlan {
    /// The batch was empty: log "No message received" and go to sleep.
    ReportNoMessage,
    /// Process this payload, then attempt one deletion with this handle.
    Process { body: String, receipt_handle: String },
}

/// Decide the cycle's course from the received batch.
///
/// An empty batch is reported as such; otherwise exactly the first message
/// is chosen, and its body and receipt handle are handed on for processing.
pub fn plan_messages(messages: &Vec<Message>) -> (plan: CyclePlan)
    requires
        messages@.len() > 0 ==> messages@[0].wf(),
    ensures
        (messages@.len() == 0) <==> (plan is ReportNoMessage),
        messages@.len() > 0 ==> (plan matches CyclePlan::Process { body, receipt_handle }
            && body == messages@[0].body->Some_0
            && receipt_handle == messages@[0].receipt_handle->Some_0),
{
    if messages.len() == 0 {
        CyclePlan::ReportNoMessage
    } else {
        CyclePlan::Process {
            body: extract_body(&messages[0]),
            receipt_handle: extract_receipt_handle(&messages[0]),
        }
    }
}

/// What processing one message produced: the extracted payload, and how the
/// deletion attempt ended.
pub struct ProcessReport {
    /// The message's payload.
    pub body: String,
    /// Outcome of the single deletion attempt. An error here is non-fatal.
    pub delete_result: Result<(), TransportError>,
}

/// Process one well-formed message against the mock queue client: extract
/// its body and receipt handle, then attempt exactly one deletion with that
/// handle.
///
/// A deletion failure never escapes this function: it is part of the
/// returned report, and the caller's cycle continues either way.
pub fn process_message(client: &mut MockClient, queue_url: &String, message: &Message) -> (report:
    ProcessReport)
    requires
        message.wf(),
    ensures
        final(client).canned() == old(client).canned(),
        final(client).fail_deletes() == old(client).fail_deletes(),
        final(client).deleted() == old(client).deleted().push(
            message.receipt_handle->Some_0,
        ),
        report.body == message.body->Some_0,
        report.delete_result is Ok <==> !old(client).fail_deletes(),
{
    let body = extract_body(message);
    let receipt_handle = extract_receipt_handle(message);
    let delete_result = client.delete(queue_url, receipt_handle);
    ProcessReport { body, delete_result }
}

/// What one poll cycle reported. Every variant lets the loop proceed to its
/// sleep: no cycle outcome terminates the worker.
pub enum CycleReport {
    /// The receive call returned no message; nothing was deleted.
    NoMessage,
    /// The receive call itself failed; the cycle degrades to a logged no-op.
    ReceiveFailed { detail: String },
    /// The first message was processed, with the deletion attempt's outcome.
    Processed { body: String, delete_result: Result<(), TransportError> },
}

impl CycleReport {
    /// The log lines this cycle outcome produces, in order. Every error is
    /// reported as a log line; there is no other alerting path.
    pub fn log_lines(&self) -> (lines: Vec<String>)
        ensures
            *self is NoMessage ==> lines@.len() == 1 && lines@[0]@ == "No message received"@,
            (*self matches CycleReport::ReceiveFailed { detail } ==> lines@.len() == 1 && lines@[0]@
                == "Failed to get messages: "@ + detail@),
            (*self matches CycleReport::Processed { body, delete_result } ==> lines@.len() == 2
                && lines@[0]@ == "Message body is "@ + body@ && (delete_result is Ok
                ==> lines@[1]@ == "Succeeded to delete message"@) && (delete_result matches Err(e)
                ==> lines@[1]@ == "Failed to delete message: "@ + e.detail@)),
    {
        let mut lines: Vec<String> = Vec::new();
        match self {
            CycleReport::NoMessage => {
                lines.push(String::from_str("No message received"));
            },
            CycleReport::ReceiveFailed { detail } => {
                lines.push(
                    String::from_str("Failed to get messages: ").concat(detail.as_str()),
                );
            },
            CycleReport::Processed { body, delete_result } => {
                lines.push(String::from_str("Message body is ").concat(body.as_str()));
                match delete_result {
                    Ok(_) => lines.push(String::from_str("Succeeded to delete message")),
                    Err(e) => lines.push(
                        String::from_str("Failed to delete message: ").concat(e.detail.as_str()),
                    ),
                }
            },
        }
        lines
    }
}

/// What the report of one cycle must be, given the batch the receive call
/// produced and whether the client fails deletions: an empty batch is
/// reported as `NoMessage`, and a non-empty one as its first message
/// processed, the deletion having succeeded exactly when deletions do not
/// fail.
pub open spec fn cycle_report_matches(
    report: CycleReport,
    messages: Seq<Message>,
    fail_deletes: bool,
) -> bool {
    if messages.len() == 0 {
        report is NoMessage
    } else {
        report matches CycleReport::Processed { body, delete_result } && body
            == messages[0].body->Some_0 && (delete_result is Ok <==> !fail_deletes)
    }
}

/// The deletion record after one cycle over the given batch: unchanged for
/// an empty batch, and extended by exactly the first message's receipt
/// handle otherwise.
pub open spec fn deleted_after_cycle(deleted: Seq<String>, messages: Seq<Message>) -> Seq<String> {
    if messages.len() == 0 {
        deleted
    } else {
        deleted.push(messages[0].receipt_handle->Some_0)
    }
}

/// Handle one received batch against the mock queue client.
///
/// An empty batch leaves the client untouched and performs no deletion; a
/// non-empty batch has exactly its first message processed, with exactly one
/// deletion attempted, carrying that message's receipt handle.
pub fn process_messages(client: &mut MockClient, queue_url: &String, messages: &Vec<Message>) -> (report:
    CycleReport)
    requires
        messages@.len() > 0 ==> messages@[0].wf(),
    ensures
        final(client).canned() == old(client).canned(),
        final(client).fail_deletes() == old(client).fail_deletes(),
        final(client).deleted() == deleted_after_cycle(old(client).deleted(), messages@),
        cycle_report_matches(report, messages@, old(client).fail_deletes()),
{
    if messages.len() == 0 {
        CycleReport::NoMessage
    } else {
        let report = process_message(client, queue_url, &messages[0]);
        CycleReport::Processed { body: report.body, delete_result: report.delete_result }
    }
}

/// Run one full poll cycle against the mock queue client: receive at most
/// one message, then handle the batch as [`process_messages`] does.
///
/// The mock's receive never fails, so the cycle's report is `NoMessage` when
/// the canned response is empty and `Processed` otherwise.
pub fn run_cycle(client: &mut MockClient, queue_url: &String) -> (report: CycleReport)
    requires
        old(client).canned().len() > 0 ==> old(client).canned()[0].wf(),
    ensures
        final(client).canned() == old(client).canned(),
        final(client).fail_deletes() == old(client).fail_deletes(),
        final(client).deleted() == deleted_after_cycle(
            old(client).deleted(),
            old(client).canned(),
        ),
        cycle_report_matches(report, old(client).canned(), old(client).fail_deletes()),
{
    let received = client.receive(queue_url, 1);
    match received {
        Ok(messages) => process_messages(client, queue_url, &messages),
        Err(_) => vstd::pervasive::unreached(),
    }
}

/// Run a bounded number of poll cycles against the mock queue client, one
/// after another, as the loop does between its suspension points.
///
/// Cycle N completes before cycle N+1 begins, so the deletion record grows
/// by exactly one entry — the first canned message's receipt handle — per
/// cycle when the canned response is non-empty, and not at all when it is
/// empty; and every cycle's report matches the canned response.
pub fn run_cycles(client: &mut MockClient, queue_url: &String, cycles: usize) -> (reports: Vec<
    CycleReport,
>)
    requires
        old(client).canned().len() > 0 ==> old(client).canned()[0].wf(),
    ensures
        final(client).canned() == old(client).canned(),
        final(client).fail_deletes() == old(client).fail_deletes(),
        reports@.len() == cycles,
        old(client).canned().len() == 0 ==> final(client).deleted() == old(client).deleted(),
        old(client).canned().len() > 0 ==> final(client).deleted() == old(client).deleted()
            + Seq::new(cycles as nat, |j: int| old(client).canned()[0].receipt_handle->Some_0),
        forall|j: int|
            0 <= j < cycles ==> cycle_report_matches(
                #[trigger] reports@[j],
                old(client).canned(),
                old(client).fail_deletes(),
            ),
{
    let ghost start_deleted = old(client).deleted();
    let mut reports: Vec<CycleReport> = Vec::new();
    let mut i: usize = 0;
    while i < cycles
        invariant
            i <= cycles,
            reports@.len() == i as int,
            client.canned() == old(client).canned(),
            client.fail_deletes() == old(client).fail_deletes(),
            old(client).canned().len() > 0 ==> old(client).canned()[0].wf(),
            client.canned().len() == 0 ==> client.deleted() == start_deleted,
            client.canned().len() > 0 ==> client.deleted() == start_deleted + Seq::new(
                i as nat,
                |j: int| old(client).canned()[0].receipt_handle->Some_0,
            ),
            forall|j: int|
                0 <= j < i ==> cycle_report_matches(
                    #[trigger] reports@[j],
                    old(client).canned(),
                    old(client).fail_deletes(),
                ),
        decreases cycles - i,
    {
        let report = run_cycle(client, queue_url);
        proof {
            if client.canned().len() > 0 {
                assert(client.deleted() =~= start_deleted + Seq::new(
                    (i + 1) as nat,
                    |j: int| old(client).canned()[0].receipt_handle->Some_0,
                ));
            }
        }
        reports.push(report);
        i = i + 1;
    }
    reports
}

} // verus!
