//! Messages that have arrived and wait for the frame that takes them.

use vstd::prelude::*;
use crate::message::{message_decoding, Message, MessageError, MessageView, Serializable};

verus! {

/// The messages of one channel, in the order of their arrival.
pub struct MessagePool {
    pub messages: Vec<Message>,
}

/// The messages of a list as contracts see them.
pub open spec fn views(messages: Seq<Message>) -> Seq<MessageView> {
    messages.map_values(|m: Message| m@)
}

impl MessagePool {
    pub fn new() -> (pool: MessagePool)
        ensures
            pool.messages@.len() == 0,
    {
        MessagePool { messages: Vec::new() }
    }

    /// Takes in what arrived. Bytes that are a message are queued behind
    /// the others; bytes that are none are dropped, and the reason is
    /// returned.
    pub fn deliver(&mut self, bytes: &[u8]) -> (outcome: Result<(), MessageError>)
        ensures
            match message_decoding(bytes@) {
                Ok(message) => outcome is Ok && views(final(self).messages@) == views(old(self).messages@).push(
                    message,
                ),
                Err(e) => outcome == Err::<(), MessageError>(e) && final(self).messages@ == old(self).messages@,
            },
    {
        match Message::from_bytes(bytes) {
            Ok(message) => {
                self.messages.push(message);
                assert(views(self.messages@) =~= views(old(self).messages@).push(message@));
                Ok(())
            },
            Err(e) => Err(e),
        }
    }

    /// Hands over all the messages that wait, in the order of their
    /// arrival, and leaves none.
    pub fn poll(&mut self) -> (messages: Vec<Message>)
        ensures
            messages@ == old(self).messages@,
            final(self).messages@.len() == 0,
    {
        let mut messages: Vec<Message> = Vec::new();
        std::mem::swap(&mut self.messages, &mut messages);
        messages
    }
}

} // verus!
