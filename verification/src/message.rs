//! The unit retrieved from the queue.
//!
//! A message carries two essential fields, both optional on the wire: the
//! payload `body`, and the `receipt_handle`, an opaque token identifying this
//! specific delivery, required to delete it. A message missing either field
//! is malformed; the worker treats that as a logic error and refuses to
//! process it (callers must check [`Message::wf`] first).

use vstd::prelude::*;

verus! {

/// One delivery of a queue message.
pub struct Message {
    /// The payload, absent on a malformed delivery.
    pub body: Option<String>,
    /// Opaque token for this specific delivery, needed to delete it.
    /// A stale handle may be rejected by the queue; that is non-fatal.
    pub receipt_handle: Option<String>,
}

impl Message {
    /// A message is well formed when both essential fields are present.
    pub open spec fn wf(&self) -> bool {
        self.body is Some && self.receipt_handle is Some
    }

    pub fn new(body: Option<String>, receipt_handle: Option<String>) -> (m: Message)
        ensures
            m.body == body,
            m.receipt_handle == receipt_handle,
    {
        Message { body, receipt_handle }
    }

    /// Whether both essential fields are present (runtime check of [`Self::wf`]).
    pub fn is_wf(&self) -> (b: bool)
        ensures
            b == self.wf(),
    {
        self.body.is_some() && self.receipt_handle.is_some()
    }
}

impl Clone for Message {
    fn clone(&self) -> (m: Self)
        ensures
            m == *self,
    {
        Message {
            body: match &self.body {
                Some(b) => Some(b.clone()),
                None => None,
            },
            receipt_handle: match &self.receipt_handle {
                Some(h) => Some(h.clone()),
                None => None,
            },
        }
    }
}

/// Take the payload out of a message.
///
/// A message without a body is malformed and excluded by the precondition:
/// the worker aborts loudly on such a delivery instead of processing it.
pub fn extract_body(message: &Message) -> (body: String)
    requires
        message.body is Some,
    ensures
        body == message.body->Some_0,
{
    match &message.body {
        Some(b) => b.clone(),
        None => vstd::pervasive::unreached(),
    }
}

/// Take the delivery's receipt handle out of a message.
///
/// A message without a receipt handle is malformed and excluded by the
/// precondition, exactly as in [`extract_body`].
pub fn extract_receipt_handle(message: &Message) -> (handle: String)
    requires
        message.receipt_handle is Some,
    ensures
        handle == message.receipt_handle->Some_0,
{
    match &message.receipt_handle {
        Some(h) => h.clone(),
        None => vstd::pervasive::unreached(),
    }
}

} // verus!
