//! The message as the replay core sees it: a body and a receipt handle,
//! both optional, exactly what a queue receive may hand back.

use vstd::prelude::*;

verus! {

/// A message pulled from the source queue.
///
/// The receipt handle is the only information needed to delete the message
/// from the source once it has been forwarded or skipped.
pub struct Message {
    pub body: Option<String>,
    pub receipt_handle: Option<String>,
}

impl Message {
    /// The text the selector is matched against: the body, or the empty
    /// string when the message has none.
    pub open spec fn body_chars(&self) -> Seq<char> {
        match self.body {
            Some(b) => b@,
            None => Seq::empty(),
        }
    }

    pub fn builder() -> (b: MessageBuilder)
        ensures
            b.body is None,
            b.receipt_handle is None,
    {
        MessageBuilder { body: None, receipt_handle: None }
    }

    /// A field-for-field copy of the message.
    pub fn duplicate(&self) -> (r: Message)
        ensures
            r == *self,
    {
        let body = match &self.body {
            Some(b) => Some(b.clone()),
            None => None,
        };
        let receipt_handle = match &self.receipt_handle {
            Some(h) => Some(h.clone()),
            None => None,
        };
        Message { body, receipt_handle }
    }
}

/// Builds a [`Message`] field by field.
pub struct MessageBuilder {
    pub body: Option<String>,
    pub receipt_handle: Option<String>,
}

impl MessageBuilder {
    pub fn body(self, s: &str) -> (r: MessageBuilder)
        ensures
            r.body matches Some(b) && b@ == s@,
            r.receipt_handle == self.receipt_handle,
    {
        MessageBuilder { body: Some(s.to_owned()), receipt_handle: self.receipt_handle }
    }

    pub fn receipt_handle(self, s: &str) -> (r: MessageBuilder)
        ensures
            r.receipt_handle matches Some(h) && h@ == s@,
            r.body == self.body,
    {
        MessageBuilder { body: self.body, receipt_handle: Some(s.to_owned()) }
    }

    pub fn build(self) -> (m: Message)
        ensures
            m.body == self.body,
            m.receipt_handle == self.receipt_handle,
    {
        Message { body: self.body, receipt_handle: self.receipt_handle }
    }
}

} // verus!
