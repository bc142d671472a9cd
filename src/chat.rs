//! The chat side of the local HTTP API: what a chat request carries, and how
//! a conversation read back from the server becomes chat messages.
use crate::models::{ChatMessage, TTSParameters};
use vstd::prelude::*;
use vstd::string::StringExecFns;

verus! {

/// The single user this client speaks for.
pub open spec fn user_identity() -> Seq<char> {
    "default_user"@
}

pub open spec fn missing_conversation_text() -> Seq<char> {
    "Invalid response format: missing conversation array"@
}

pub open spec fn greeting(name: Seq<char>) -> Seq<char> {
    "Hello, "@ + name + "! You've been greeted from Rust!"@
}

pub fn greet(name: &str) -> (r: String)
    ensures
        r@ == greeting(name@),
{
    String::from_str("Hello, ").concat(name).concat("! You've been greeted from Rust!")
}

/// The body of a chat request: the message, the user it is from, and the
/// speech parameters when spoken replies are wanted.
#[derive(Clone, Debug, PartialEq, Eq)]
pub struct ChatRequest {
    pub message: String,
    pub user_id: String,
    pub tts: Option<TTSParameters>,
}

/// Builds a chat request. With speech enabled the reply is spoken with the
/// given parameters, or the default ones when none are given; with speech
/// disabled no parameters are sent.
pub fn chat_request(message: String, tts_enabled: bool, tts_params: Option<TTSParameters>) -> (r: ChatRequest)
    ensures
        r.message == message,
        r.user_id@ == user_identity(),
        !tts_enabled ==> r.tts is None,
        tts_enabled && tts_params is Some ==> r.tts == tts_params,
        tts_enabled && tts_params is None ==> (r.tts matches Some(p) && p.is_default()),
{
    let tts = if tts_enabled {
        match tts_params {
            Some(p) => Some(p),
            None => Some(TTSParameters::default_params()),
        }
    } else {
        None
    };
    ChatRequest { message, user_id: String::from_str("default_user"), tts }
}

/// One element of the conversation array as the server sent it: each field
/// is present only when it held a string.
#[derive(Clone, Debug, PartialEq, Eq)]
pub struct RawChatEntry {
    pub role: Option<String>,
    pub content: Option<String>,
    pub timestamp: Option<String>,
}

pub open spec fn text_or(field: Option<String>, fallback: Seq<char>) -> Seq<char> {
    match field {
        Some(s) => s@,
        None => fallback,
    }
}

/// The chat message an entry stands for: a missing role is the assistant's,
/// missing content and timestamp are empty.
pub open spec fn entry_matches(e: RawChatEntry, m: ChatMessage) -> bool {
    &&& m.role@ == text_or(e.role, "assistant"@)
    &&& m.content@ == text_or(e.content, Seq::empty())
    &&& m.timestamp@ == text_or(e.timestamp, Seq::empty())
}

fn text_or_else(field: &Option<String>, fallback: &str) -> (r: String)
    ensures
        r@ == text_or(*field, fallback@),
{
    match field {
        Some(s) => s.clone(),
        None => String::from_str(fallback),
    }
}

/// Turns the conversation array of a history response into chat messages,
/// in order; fails when the response had no such array.
pub fn conversation_messages(conversation: Option<Vec<RawChatEntry>>) -> (r: Result<Vec<ChatMessage>, String>)
    ensures
        match conversation {
            None => r matches Err(e) && e@ == missing_conversation_text(),
            Some(entries) => r matches Ok(ms) && ms@.len() == entries@.len() && forall|i: int|
                0 <= i < ms@.len() ==> #[trigger] entry_matches(entries@[i], ms@[i]),
        },
{
    match conversation {
        None => Err(String::from_str("Invalid response format: missing conversation array")),
        Some(entries) => {
            let mut ms: Vec<ChatMessage> = Vec::new();
            let mut i: usize = 0;
            while i < entries.len()
                invariant
                    i <= entries@.len(),
                    ms@.len() == i,
                    forall|j: int| 0 <= j < i ==> #[trigger] entry_matches(entries@[j], ms@[j]),
                decreases entries@.len() - i,
            {
                let e = &entries[i];
                let m = ChatMessage {
                    role: text_or_else(&e.role, "assistant"),
                    content: text_or_else(&e.content, ""),
                    timestamp: text_or_else(&e.timestamp, ""),
                };
                proof {
                    reveal_strlit("");
                    assert(""@ =~= Seq::<char>::empty());
                    assert(entry_matches(entries@[i as int], m));
                }
                ms.push(m);
                i = i + 1;
            }
            Ok(ms)
        },
    }
}

} // verus!
