//! The message handler: the one piece of business logic. Given an incoming
//! message it decides on zero or one replies, and a failed delivery becomes
//! an error value for the update loop to log — never a crash.

use vstd::prelude::*;

verus! {

/// One inbound chat message: the conversation it came from and its text,
/// which is absent when the update carries a photo, a sticker or another
/// non-text payload.
pub struct IncomingMessage {
    pub chat_id: i64,
    pub text: Option<String>,
}

/// One outbound message: the conversation to deliver to and the text to send.
pub struct OutgoingMessage {
    pub chat_id: i64,
    pub body: String,
}

/// What the handler decided to do with one incoming message.
pub enum HandlerAction {
    /// Send this message back through the platform client.
    Reply(OutgoingMessage),
    /// Do nothing; the message needed no reply.
    Ignore,
}

/// The fixed label every reply starts with.
pub open spec fn reply_prefix() -> Seq<char> {
    "Dijiste: "@
}

/// The reply to received text `text`: the prefix, then `text` verbatim — no
/// transformation, truncation or escaping.
pub open spec fn spec_reply_body(text: Seq<char>) -> Seq<char> {
    reply_prefix() + text
}

/// The decision owed for one incoming message, as the reply's chat id and
/// text: a message with text gets exactly one reply, addressed to the chat
/// it came from; a message without text gets none.
pub open spec fn spec_handle(m: IncomingMessage) -> Option<(i64, Seq<char>)> {
    match m.text {
        Some(t) => Some((m.chat_id, spec_reply_body(t@))),
        None => None,
    }
}

/// The decision an action stands for: the reply it sends, or nothing.
pub open spec fn action_view(a: HandlerAction) -> Option<(i64, Seq<char>)> {
    match a {
        HandlerAction::Reply(out) => Some((out.chat_id, out.body@)),
        HandlerAction::Ignore => None,
    }
}

/// Builds the reply text for received text `text`.
pub fn reply_body(text: &str) -> (body: String)
    ensures
        body@ == spec_reply_body(text@),
{
    String::from_str("Dijiste: ").concat(text)
}

/// Decides the bot's response to one incoming message. A message with text
/// gets exactly one reply, to the chat it came from, whose body is the
/// received text behind the fixed prefix; a message without text gets none.
pub fn handle(message: &IncomingMessage) -> (action: HandlerAction)
    ensures
        action_view(action) == spec_handle(*message),
{
    match &message.text {
        Some(text) => HandlerAction::Reply(
            OutgoingMessage { chat_id: message.chat_id, body: reply_body(text.as_str()) },
        ),
        None => HandlerAction::Ignore,
    }
}

/// Law: for every message that carries text — the empty text, unicode text,
/// text that contains the prefix itself — the handler owes exactly one
/// reply, addressed to the chat the message came from, whose body is the
/// prefix followed by the received text verbatim.
pub proof fn lemma_text_message_replied(m: IncomingMessage)
    requires
        m.text is Some,
    ensures
        spec_handle(m) matches Some(r) && r.0 == m.chat_id && r.1 == reply_prefix()
            + m.text->0@,
{
}

/// Law: a message without text is owed no reply at all.
pub proof fn lemma_textless_message_ignored(m: IncomingMessage)
    requires
        m.text is None,
    ensures
        spec_handle(m) is None,
{
}

/// Law: the handler is idempotent across invocations — two calls on
/// identical messages are owed identical, independent replies; there is no
/// hidden memoization or deduplication. Together with `handle`'s
/// postcondition this pins both calls' actions to the same decision.
pub proof fn lemma_handle_idempotent(m1: IncomingMessage, m2: IncomingMessage)
    requires
        m1 == m2,
    ensures
        spec_handle(m1) == spec_handle(m2),
{
}

/// Why delivering a reply failed: the platform client's own account of the
/// network or API error, as text.
pub struct SendError {
    pub description: String,
}

/// What one handler invocation can fail with.
pub enum HandlerError {
    /// The outbound send failed. The update loop logs this and goes on to
    /// the next update; one failed reply never stops dispatching.
    SendFailed(SendError),
}

impl HandlerError {
    /// A human-readable line for the log: the failure, then the platform
    /// client's account of it.
    pub fn describe(&self) -> (msg: String)
        ensures
            self matches HandlerError::SendFailed(e) && msg@ == "No se pudo enviar la respuesta: "@
                + e.description@,
    {
        match self {
            HandlerError::SendFailed(e) => String::from_str(
                "No se pudo enviar la respuesta: ",
            ).concat(e.description.as_str()),
        }
    }
}

/// Folds the outcome the platform client reported for one send into the
/// handler's result: success stays success, and a failed send becomes
/// `HandlerError::SendFailed` carrying the client's account unchanged. The
/// failure is returned as a value, never raised, so the update loop outlives
/// it.
pub fn complete_send(outcome: Result<(), SendError>) -> (r: Result<(), HandlerError>)
    ensures
        outcome is Ok <==> r is Ok,
        outcome matches Err(e) ==> r matches Err(HandlerError::SendFailed(f)) && f == e,
{
    match outcome {
        Ok(()) => Ok(()),
        Err(e) => Err(HandlerError::SendFailed(e)),
    }
}

} // verus!
