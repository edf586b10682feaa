//! The message parser: turns one raw protocol line into a typed record.
//!
//! The wire format is one message per line:
//! `@tag1=val1;tag2=val2;... :prefix COMMAND #channel :trailing text`.
//! Tags appear in a fixed order; each tag has its own field parser, and the
//! field parsers are composed positionally.
pub mod chat_message;
pub mod error;
pub mod meta_data;
pub mod scan;
pub mod tags;

use vstd::prelude::*;

verus! {

/// Whether `x` is `y` after ASCII lower-casing (`y` is expected lower-case
/// already).
pub open spec fn char_lower_matches(x: char, y: char) -> bool {
    x == y || ('A' <= x && x <= 'Z' && (x as u32) + 32 == (y as u32))
}

/// Whether the string `a` equals `b` once `a` is ASCII lower-cased.
pub open spec fn lower_eq(a: Seq<char>, b: Seq<char>) -> bool {
    a.len() == b.len() && forall|j: int| 0 <= j < a.len() ==> char_lower_matches(a[j], #[trigger] b[j])
}

/// Compare `a` against the (already lower-case) `b`, ignoring ASCII case in
/// `a`.
pub fn eq_lower(a: &str, b: &str) -> (r: bool)
    ensures
        r == lower_eq(a@, b@),
{
    let alen = a.unicode_len();
    let blen = b.unicode_len();
    if alen != blen {
        return false;
    }
    let mut i: usize = 0;
    while i < alen
        invariant
            0 <= i <= alen,
            alen == a@.len(),
            alen == b@.len(),
            forall|j: int| 0 <= j < i ==> char_lower_matches(a@[j], #[trigger] b@[j]),
        decreases alen - i,
    {
        let x = a.get_char(i);
        let y = b.get_char(i);
        let matches = x == y || ('A' <= x && x <= 'Z' && (x as u32) + 32 == (y as u32));
        if !matches {
            assert(!char_lower_matches(a@[i as int], b@[i as int]));
            return false;
        }
        i += 1;
    }
    true
}

/// The well-known badge kinds.  An unrecognized badge name degrades to
/// `Unimplemented` rather than failing the parse, so that new badge kinds on
/// the wire stay forward compatible.
#[derive(Debug, Clone, Copy, PartialEq, Eq, Structural)]
pub enum Badges {
    Admin,
    Bits,
    Broadcaster,
    GlobalMod,
    Moderator,
    Subscriber,
    Staff,
    Turbo,
    Premium,
    GlitchCon2020,
    SubGifter,
    Unimplemented,
}

/// The badge kind named by `s`, compared ignoring ASCII case.
pub open spec fn spec_badge_of(s: Seq<char>) -> Badges {
    if lower_eq(s, "admin"@) {
        Badges::Admin
    } else if lower_eq(s, "bits"@) {
        Badges::Bits
    } else if lower_eq(s, "broadcaster"@) {
        Badges::Broadcaster
    } else if lower_eq(s, "global_mod"@) {
        Badges::GlobalMod
    } else if lower_eq(s, "moderator"@) {
        Badges::Moderator
    } else if lower_eq(s, "subscriber"@) {
        Badges::Subscriber
    } else if lower_eq(s, "staff"@) {
        Badges::Staff
    } else if lower_eq(s, "turbo"@) {
        Badges::Turbo
    } else if lower_eq(s, "premium"@) {
        Badges::Premium
    } else if lower_eq(s, "glitchcon2020"@) {
        Badges::GlitchCon2020
    } else if lower_eq(s, "sub-gifter"@) {
        Badges::SubGifter
    } else {
        Badges::Unimplemented
    }
}

impl From<&str> for Badges {
    fn from(i: &str) -> (r: Badges) {
        if eq_lower(i, "admin") {
            Badges::Admin
        } else if eq_lower(i, "bits") {
            Badges::Bits
        } else if eq_lower(i, "broadcaster") {
            Badges::Broadcaster
        } else if eq_lower(i, "global_mod") {
            Badges::GlobalMod
        } else if eq_lower(i, "moderator") {
            Badges::Moderator
        } else if eq_lower(i, "subscriber") {
            Badges::Subscriber
        } else if eq_lower(i, "staff") {
            Badges::Staff
        } else if eq_lower(i, "turbo") {
            Badges::Turbo
        } else if eq_lower(i, "premium") {
            Badges::Premium
        } else if eq_lower(i, "glitchcon2020") {
            Badges::GlitchCon2020
        } else if eq_lower(i, "sub-gifter") {
            Badges::SubGifter
        } else {
            Badges::Unimplemented
        }
    }
}

impl vstd::std_specs::convert::FromSpecImpl<&str> for Badges {
    open spec fn obeys_from_spec() -> bool {
        true
    }

    open spec fn from_spec(i: &str) -> Badges {
        spec_badge_of(i@)
    }
}

/// An inline graphical token: its id and the character ranges of the payload
/// it replaces.
#[derive(Debug, PartialEq, Eq)]
pub struct Emote<'a> {
    pub id: &'a str,
    pub indexes: Vec<(u32, u32)>,
}

/// The spec-level value of an [`Emote`].
pub ghost struct EmoteV {
    pub id: Seq<char>,
    pub indexes: Seq<(u32, u32)>,
}

impl<'a> View for Emote<'a> {
    type V = EmoteV;

    open spec fn view(&self) -> EmoteV {
        EmoteV { id: self.id@, indexes: self.indexes@ }
    }
}

/// The command keyword of a line.  Only the chat-message command is
/// structurally understood; every other keyword is carried through verbatim
/// rather than aborting the parse.
#[derive(Debug, PartialEq, Eq)]
pub enum MessageType<'a> {
    PrivMsg,
    Other(&'a str),
}

/// The spec-level value of a [`MessageType`].
pub ghost enum MessageTypeV {
    PrivMsg,
    Other(Seq<char>),
}

impl<'a> View for MessageType<'a> {
    type V = MessageTypeV;

    open spec fn view(&self) -> MessageTypeV {
        match self {
            MessageType::PrivMsg => MessageTypeV::PrivMsg,
            MessageType::Other(s) => MessageTypeV::Other(s@),
        }
    }
}

/// The command denoted by the keyword `s`, compared ignoring ASCII case.
pub open spec fn spec_message_type_of(s: Seq<char>) -> MessageTypeV {
    if lower_eq(s, "privmsg"@) {
        MessageTypeV::PrivMsg
    } else {
        MessageTypeV::Other(s)
    }
}

impl<'a> From<&'a str> for MessageType<'a> {
    fn from(i: &'a str) -> (r: MessageType<'a>) {
        if eq_lower(i, "privmsg") {
            MessageType::PrivMsg
        } else {
            MessageType::Other(i)
        }
    }
}

impl<'a> vstd::std_specs::convert::FromSpecImpl<&'a str> for MessageType<'a> {
    open spec fn obeys_from_spec() -> bool {
        true
    }

    open spec fn from_spec(i: &'a str) -> MessageType<'a> {
        if lower_eq(i@, "privmsg"@) {
            MessageType::PrivMsg
        } else {
            MessageType::Other(i)
        }
    }
}

} // verus!
