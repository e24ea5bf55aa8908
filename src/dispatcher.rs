use vstd::prelude::*;

use crate::registry::{ConnectionRegistry, SendOutcome};
use crate::types::{Identity, OutgoingSocketMessage, Timestamp};

verus! {

/// The envelope announcing a stored message to the other participant:
/// the sender appears as the recipient's friend.
pub fn build_envelope(
    chat_id: i32,
    message_id: i32,
    message_text: String,
    sent_time: Timestamp,
    sender: &Identity,
) -> (r: OutgoingSocketMessage)
    ensures
        r.chat_id == chat_id,
        r.message_id == message_id,
        r.message_text == message_text,
        r.sent_time == sent_time,
        r.friend_username == sender.username,
        r.friend_user_id == sender.user_id,
{
    OutgoingSocketMessage {
        chat_id,
        message_id,
        message_text,
        sent_time,
        friend_username: sender.username.clone(),
        friend_user_id: sender.user_id,
    }
}

/// Pushes a stored message to `recipient_id` in realtime, if reachable.
/// The outcome never affects the sender's response.
pub fn dispatch(
    registry: &mut ConnectionRegistry,
    recipient_id: i32,
    chat_id: i32,
    message_id: i32,
    message_text: String,
    sent_time: Timestamp,
    sender: &Identity,
) -> (r: SendOutcome)
    requires
        old(registry)@.wf(),
    ensures
        final(registry)@.wf(),
        r == old(registry)@.send_outcome(recipient_id),
        final(registry)@ == old(registry)@.sent(
            recipient_id,
            OutgoingSocketMessage {
                chat_id,
                message_id,
                message_text,
                sent_time,
                friend_username: sender.username,
                friend_user_id: sender.user_id,
            },
        ),
{
    let envelope = build_envelope(chat_id, message_id, message_text, sent_time, sender);
    registry.send_to(recipient_id, envelope)
}

} // verus!
