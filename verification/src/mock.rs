//! Deterministic mock queue client.
//!
//! The queue client interface offers two operations: receive up to a given
//! number of messages, and delete one message by its receipt handle. The
//! mock variant replays one pre-recorded receive response verbatim on every
//! call, never touches a network, and needs no credentials. It additionally
//! records every deletion attempt, so a test can check exactly which handles
//! the worker acknowledged, and it can be configured to fail deletions, so a
//! test can drive the loop through its non-fatal failure path.

use vstd::prelude::*;
use crate::errors::TransportError;
use crate::message::Message;

verus! {

/// A queue client backed by one canned receive response instead of a network.
pub struct MockClient {
    /// The canned response: every receive call returns these messages.
    canned: Vec<Message>,
    /// When set, every deletion attempt fails with a transport error, as a
    /// live queue may do on a stale receipt handle.
    fail_deletes: bool,
    /// Receipt handles of every deletion attempted so far, in call order.
    deleted: Vec<String>,
}

impl MockClient {
    /// The canned messages that every receive call replays.
    pub closed spec fn canned(&self) -> Seq<Message> {
        self.canned@
    }

    /// Whether this client is configured to fail every deletion attempt.
    pub closed spec fn fail_deletes(&self) -> bool {
        self.fail_deletes
    }

    /// Receipt handles of every deletion attempted so far, in call order.
    pub closed spec fn deleted(&self) -> Seq<String> {
        self.deleted@
    }

    /// Build a mock client around one canned receive response.
    pub fn new(canned: Vec<Message>, fail_deletes: bool) -> (client: MockClient)
        ensures
            client.canned() == canned@,
            client.fail_deletes() == fail_deletes,
            client.deleted() == Seq::<String>::empty(),
    {
        MockClient { canned, fail_deletes, deleted: Vec::new() }
    }

    /// The recorded deletion attempts, for inspection by tests.
    pub fn deleted_handles(&self) -> (handles: &Vec<String>)
        ensures
            handles@ == self.deleted(),
    {
        &self.deleted
    }

    /// Receive up to `max_number_of_messages` messages from the queue named
    /// by `queue_url`.
    ///
    /// The mock replays its canned response verbatim, however often it is
    /// called and whatever the request says, and never fails: the client is
    /// unchanged (it is not even borrowed mutably), so every call returns
    /// the same messages.
    pub fn receive(&self, queue_url: &String, max_number_of_messages: usize) -> (r: Result<
        Vec<Message>,
        TransportError,
    >)
        ensures
            r matches Ok(messages) && messages@ == self.canned(),
    {
        let mut out: Vec<Message> = Vec::new();
        let mut i: usize = 0;
        while i < self.canned.len()
            invariant
                i <= self.canned.len(),
                out@ =~= self.canned@.take(i as int),
            decreases self.canned.len() - i,
        {
            out.push(self.canned[i].clone());
            i = i + 1;
        }
        proof {
            assert(out@ =~= self.canned@);
        }
        Ok(out)
    }

    /// Delete the delivery identified by `receipt_handle` from the queue
    /// named by `queue_url`.
    ///
    /// The attempt is recorded whether or not it succeeds; it succeeds
    /// exactly when the client is not configured to fail deletions. The
    /// canned response and the failure configuration never change.
    pub fn delete(&mut self, queue_url: &String, receipt_handle: String) -> (r: Result<
        (),
        TransportError,
    >)
        ensures
            final(self).canned() == old(self).canned(),
            final(self).fail_deletes() == old(self).fail_deletes(),
            final(self).deleted() == old(self).deleted().push(receipt_handle),
            r is Ok <==> !old(self).fail_deletes(),
    {
        self.deleted.push(receipt_handle);
        if self.fail_deletes {
            Err(TransportError::new(String::from_str("ReceiptHandleIsInvalid")))
        } else {
            Ok(())
        }
    }
}

} // verus!
