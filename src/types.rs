use vstd::prelude::*;

verus! {

/// A point in time, as microseconds since the Unix epoch (UTC).
#[derive(Clone, Copy, Debug, PartialEq, Eq, Structural)]
pub struct Timestamp {
    pub micros: i64,
}

/// An authenticated user's resolved profile.
#[derive(Clone, Debug)]
pub struct Identity {
    pub user_id: i32,
    pub username: String,
    pub contact: String,
    pub password_hash: String,
}

impl Identity {
    /// A field-by-field copy of this identity.
    pub fn duplicate(&self) -> (r: Identity)
        ensures
            r == *self,
    {
        Identity {
            user_id: self.user_id,
            username: self.username.clone(),
            contact: self.contact.clone(),
            password_hash: self.password_hash.clone(),
        }
    }
}

/// A response carrying an HTTP status and a human-readable message.
#[derive(Clone, Debug)]
pub struct ErrorResponse {
    pub status: u16,
    pub message: String,
}

/// Body of a successful login.
#[derive(Clone, Debug)]
pub struct AuthResponse {
    pub access_token: String,
    pub username: String,
}

/// Body returned after a chat was created.
#[derive(Clone, Copy, Debug, PartialEq, Eq, Structural)]
pub struct CreateChatResponse {
    pub chat_id: i32,
}

/// Body returned after a message was stored.
#[derive(Clone, Copy, Debug, PartialEq, Eq, Structural)]
pub struct SendMessageResponse {
    pub message_id: i32,
}

/// One entry of a user's chat list.
#[derive(Clone, Debug)]
pub struct SingleRetrievedChat {
    pub chat_id: i32,
    pub friend_username: String,
    pub friend_user_id: i32,
    pub last_message: String,
    pub last_message_time: Timestamp,
    pub was_last_message_sent_by_user: bool,
    pub chat_created_at: Timestamp,
}

/// One message of a chat, as seen by one of its participants.
#[derive(Clone, Debug)]
pub struct ChatMessage {
    pub message_id: i32,
    pub did_user_send: bool,
    pub sender_user_id: i32,
    pub message_text: String,
    pub sent_time: Timestamp,
}

/// The realtime envelope pushed to a connected recipient.
#[derive(Clone, Debug)]
pub struct OutgoingSocketMessage {
    pub chat_id: i32,
    pub message_id: i32,
    pub message_text: String,
    pub sent_time: Timestamp,
    pub friend_username: String,
    pub friend_user_id: i32,
}

/// Summary row of a chat: its last activity and last message.
#[derive(Clone, Debug)]
pub struct ChatInfo {
    pub chat_id: i32,
    pub updated_at: Timestamp,
    pub last_message: Option<String>,
}

} // verus!
