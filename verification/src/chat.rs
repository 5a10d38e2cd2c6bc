//! The chat subsystem: what a player's whisper, broadcast or call for help
//! is answered with.

use vstd::prelude::*;
use crate::text::text;

verus! {

/// A chat request from a player.
#[derive(Debug, Clone)]
pub enum ChatRequest {
    /// A private message for `recipient`.
    Whisper { recipient: String, message: String },
    /// A message for all other players.
    Broadcast(String),
    /// A call for the list of commands.
    Help,
}

/// What is sent: a message with its sender's id, or plain text.
#[derive(Debug, Clone)]
pub enum ChatPayload {
    FromSender { sender: String, message: String },
    Text(String),
}

/// A message to send under the event name `event`, to every other player
/// when `to_others` holds and back to the requesting socket otherwise.
#[derive(Debug, Clone)]
pub struct ChatReply {
    pub event: String,
    pub to_others: bool,
    pub payload: ChatPayload,
}

/// The list of chat commands.
pub open spec fn help_message() -> Seq<char> {
    "Available commands:\n/whisper <recipient> <message> - Send a private message\n/broadcast <message> - Send a message to all users\n/help - Show this help message"@
}

/// The list of chat commands.
pub fn help_text() -> (r: String)
    ensures
        r@ == help_message(),
{
    text(
        "Available commands:\n/whisper <recipient> <message> - Send a private message\n/broadcast <message> - Send a message to all users\n/help - Show this help message",
    )
}

/// The answer to `request` from the socket `sender_id`. A whisper goes back
/// to its sender, standing in for its recipient; a broadcast goes to every
/// other player; help goes back as text.
pub fn chat_reply(sender_id: &str, request: &ChatRequest) -> (r: ChatReply)
    ensures
        match request {
            ChatRequest::Whisper { recipient, message } => {
                &&& r.event@ == "whisper"@
                &&& !r.to_others
                &&& r.payload matches ChatPayload::FromSender { sender, message: m }
                &&& sender@ == sender_id@ && m@ == message@
            },
            ChatRequest::Broadcast(message) => {
                &&& r.event@ == "broadcast"@
                &&& r.to_others
                &&& r.payload matches ChatPayload::FromSender { sender, message: m }
                &&& sender@ == sender_id@ && m@ == message@
            },
            ChatRequest::Help => {
                &&& r.event@ == "help"@
                &&& !r.to_others
                &&& r.payload matches ChatPayload::Text(t) && t@ == help_message()
            },
        },
{
    match request {
        ChatRequest::Whisper { recipient: _, message } => ChatReply {
            event: text("whisper"),
            to_others: false,
            payload: ChatPayload::FromSender { sender: text(sender_id), message: message.clone() },
        },
        ChatRequest::Broadcast(message) => ChatReply {
            event: text("broadcast"),
            to_others: true,
            payload: ChatPayload::FromSender { sender: text(sender_id), message: message.clone() },
        },
        ChatRequest::Help => ChatReply { event: text("help"), to_others: false, payload: ChatPayload::Text(help_text()) },
    }
}

} // verus!
