//! The event model at the worker/parser boundary: cheap classification of
//! each inbound line, and the typed event handed to the consumer.
use vstd::prelude::*;

use crate::parser::chat_message::{ChatMessage, spec_chat_message, spec_chat_message_error};
use crate::parser::error::ParseError;
use crate::twitch_client::{contains_sub, spec_contains};

verus! {

/// The command keyword whose presence makes a line a chat-payload candidate.
pub const CHAT_COMMAND: &'static str = "PRIVMSG";

/// What the cheap textual test says about one raw line.
#[derive(Debug, Clone, Copy, PartialEq, Eq, Structural)]
pub enum Classification {
    /// The line carries the chat-message command keyword: worth a structured
    /// parse.
    Chat,
    /// Anything else: handed on verbatim, never parsed.
    Informational,
}

/// A line is a parse candidate exactly when it contains the chat-message
/// command keyword.
pub open spec fn spec_classify(s: Seq<char>) -> Classification {
    if spec_contains(s, CHAT_COMMAND@) {
        Classification::Chat
    } else {
        Classification::Informational
    }
}

/// Classify one raw line by the substring test, without parsing it.
pub fn classify(line: &str) -> (r: Classification)
    ensures
        r == spec_classify(line@),
{
    if contains_sub(line, CHAT_COMMAND) {
        Classification::Chat
    } else {
        Classification::Informational
    }
}

/// One event handed to the consumer, in arrival order.  Exactly one variant
/// is active; the event borrows the raw line it was made from.
#[derive(Debug, PartialEq, Eq)]
pub enum ChatEvent<'a> {
    /// A non-chat line, verbatim.
    Info(&'a str),
    /// A structurally parsed chat line.
    Chat(ChatMessage<'a>),
    /// A chat candidate that failed the structured parse: the raw line for
    /// fallback display, and the parse failure.
    Error(&'a str, ParseError<'a>),
}

/// Turn one raw line into the event the consumer sees: informational lines
/// pass through verbatim; chat candidates are parsed, and a candidate that
/// fails the parse degrades to an error event that still carries the raw
/// line — never a crash.
pub fn process_line<'a>(line: &'a str) -> (r: ChatEvent<'a>)
    ensures
        spec_classify(line@) == Classification::Informational ==> (r matches ChatEvent::Info(t)
            && t@ == line@),
        spec_classify(line@) == Classification::Chat ==> (spec_chat_message(line@) matches Some(
            sv,
        ) ==> (r matches ChatEvent::Chat(m) && m@ == sv)),
        spec_classify(line@) == Classification::Chat && spec_chat_message(line@) is None ==> (
        r matches ChatEvent::Error(t, e) && t@ == line@ && e@ =~= spec_chat_message_error(line@)),
{
    match classify(line) {
        Classification::Informational => ChatEvent::Info(line),
        Classification::Chat => match ChatMessage::parse(line) {
            Ok(m) => ChatEvent::Chat(m),
            Err(e) => ChatEvent::Error(line, e),
        },
    }
}

/// The client's connection parameters: who to connect as, where to join, and
/// the credential to present.
#[derive(Debug, PartialEq, Eq)]
pub struct TwitchChat {
    pub nick: String,
    pub channel: String,
    pub token: String,
}

impl TwitchChat {
    /// Remember the connection parameters.
    pub fn new(nick: String, channel: String, token: String) -> (r: TwitchChat)
        ensures
            r.nick@ == nick@,
            r.channel@ == channel@,
            r.token@ == token@,
    {
        TwitchChat { nick, channel, token }
    }
}

} // verus!
