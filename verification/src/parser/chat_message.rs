//! The full line parser: tags, sender prefix, command, destination, payload.
use vstd::prelude::*;

use crate::parser::error::{ErrorKind, ErrorKindV, ParseError};
use crate::parser::scan::{CharClass, scan0, scan1, spec_scan0, spec_scan1, spec_tag, expect_tag};
use crate::parser::meta_data::{MetaData, MetaDataV, PRes, spec_meta_data, spec_meta_data_error};
use crate::parser::{MessageType, MessageTypeV, spec_message_type_of};

verus! {

/// The sender prefix: optional whitespace, `:`, then the sender's
/// name-and-host run.
pub open spec fn spec_prefix(s: Seq<char>) -> Option<(Seq<char>, Seq<char>)> {
    let (s1, _sp) = spec_scan0(CharClass::Space, s);
    match spec_tag(s1, ":"@) {
        None => None,
        Some(s2) => spec_scan1(CharClass::Prefix, s2),
    }
}

/// The failure stack of the sender prefix: the missing `:` or an empty
/// name-and-host run, under the prefix context.
#[verifier::opaque]
pub open spec fn spec_prefix_error(s: Seq<char>) -> Seq<(Seq<char>, ErrorKindV)> {
    let (s1, _sp) = spec_scan0(CharClass::Space, s);
    match spec_tag(s1, ":"@) {
        None => seq![(s1, ErrorKindV::Tag), (s, ErrorKindV::Context("prefix"@))],
        Some(s2) => seq![(s2, ErrorKindV::AlphaNumeric), (s, ErrorKindV::Context("prefix"@))],
    }
}

/// Parse the sender prefix.
pub fn prefix<'a>(i: &'a str) -> (r: PRes<'a, &'a str>)
    ensures
        match r {
            Ok((rest, v)) => spec_prefix(i@) == Some((rest@, v@)),
            Err(e) => spec_prefix(i@) is None && e@ =~= spec_prefix_error(i@),
        },
{
    proof {
        reveal(spec_prefix_error);
    }
    let (s1, _sp) = scan0(i, CharClass::Space);
    match expect_tag(s1, ":") {
        Err(e) => Err(e.context(i, "prefix")),
        Ok(s2) => match scan1(s2, CharClass::Prefix, ErrorKind::AlphaNumeric) {
            Err(e) => Err(e.context(i, "prefix")),
            Ok((rest, v)) => Ok((rest, v)),
        },
    }
}

/// The command keyword: optional whitespace, then a run of letters.
pub open spec fn spec_message_type(s: Seq<char>) -> Option<(Seq<char>, MessageTypeV)> {
    let (s1, _sp) = spec_scan0(CharClass::Space, s);
    match spec_scan1(CharClass::Alpha, s1) {
        None => None,
        Some((rest, kw)) => Some((rest, spec_message_type_of(kw))),
    }
}

/// The failure stack of the command keyword: an empty letter run, under the
/// keyword context.
#[verifier::opaque]
pub open spec fn spec_message_type_error(s: Seq<char>) -> Seq<(Seq<char>, ErrorKindV)> {
    let (s1, _sp) = spec_scan0(CharClass::Space, s);
    seq![(s1, ErrorKindV::Alpha), (s, ErrorKindV::Context("message-type"@))]
}

/// Parse the command keyword.  An unrecognized keyword is carried through as
/// [`MessageType::Other`]; it never aborts.
pub fn message_type<'a>(i: &'a str) -> (r: PRes<'a, MessageType<'a>>)
    ensures
        match r {
            Ok((rest, v)) => ({
                let o = spec_message_type(i@);
                o matches Some((srest, sv)) && srest == rest@ && sv == v@
            }),
            Err(e) => spec_message_type(i@) is None && e@ =~= spec_message_type_error(i@),
        },
{
    proof {
        reveal(spec_message_type_error);
    }
    let (s1, _sp) = scan0(i, CharClass::Space);
    match scan1(s1, CharClass::Alpha, ErrorKind::Alpha) {
        Err(e) => Err(e.context(i, "message-type")),
        Ok((rest, kw)) => Ok((rest, MessageType::from(kw))),
    }
}

/// The destination channel: optional whitespace, `#`, then a run of letters.
pub open spec fn spec_destination(s: Seq<char>) -> Option<(Seq<char>, Seq<char>)> {
    let (s1, _sp) = spec_scan0(CharClass::Space, s);
    match spec_tag(s1, "#"@) {
        None => None,
        Some(s2) => spec_scan1(CharClass::Alpha, s2),
    }
}

/// The failure stack of the destination: the missing `#` or an empty channel
/// name, under the destination context.
#[verifier::opaque]
pub open spec fn spec_destination_error(s: Seq<char>) -> Seq<(Seq<char>, ErrorKindV)> {
    let (s1, _sp) = spec_scan0(CharClass::Space, s);
    match spec_tag(s1, "#"@) {
        None => seq![(s1, ErrorKindV::Tag), (s, ErrorKindV::Context("destination"@))],
        Some(s2) => seq![(s2, ErrorKindV::Alpha), (s, ErrorKindV::Context("destination"@))],
    }
}

/// Parse the destination channel.
pub fn destination<'a>(i: &'a str) -> (r: PRes<'a, &'a str>)
    ensures
        match r {
            Ok((rest, v)) => spec_destination(i@) == Some((rest@, v@)),
            Err(e) => spec_destination(i@) is None && e@ =~= spec_destination_error(i@),
        },
{
    proof {
        reveal(spec_destination_error);
    }
    let (s1, _sp) = scan0(i, CharClass::Space);
    match expect_tag(s1, "#") {
        Err(e) => Err(e.context(i, "destination")),
        Ok(s2) => match scan1(s2, CharClass::Alpha, ErrorKind::Alpha) {
            Err(e) => Err(e.context(i, "destination")),
            Ok((rest, v)) => Ok((rest, v)),
        },
    }
}

/// The payload: optional whitespace, `:`, then everything to the end of the
/// line, taken verbatim (it may itself contain colons).
pub open spec fn spec_message(s: Seq<char>) -> Option<Seq<char>> {
    let (s1, _sp) = spec_scan0(CharClass::Space, s);
    spec_tag(s1, ":"@)
}

/// The failure stack of the payload: the missing `:`, under the payload
/// context.
#[verifier::opaque]
pub open spec fn spec_message_error(s: Seq<char>) -> Seq<(Seq<char>, ErrorKindV)> {
    let (s1, _sp) = spec_scan0(CharClass::Space, s);
    seq![(s1, ErrorKindV::Tag), (s, ErrorKindV::Context("message"@))]
}

/// Parse the payload.
pub fn message<'a>(i: &'a str) -> (r: PRes<'a, &'a str>)
    ensures
        match r {
            Ok((rest, v)) => spec_message(i@) == Some(v@) && rest@.len() == 0,
            Err(e) => spec_message(i@) is None && e@ =~= spec_message_error(i@),
        },
{
    proof {
        reveal(spec_message_error);
    }
    let (s1, _sp) = scan0(i, CharClass::Space);
    match expect_tag(s1, ":") {
        Err(e) => Err(e.context(i, "message")),
        Ok(v) => {
            let vlen = v.unicode_len();
            let rest = v.substring_char(vlen, vlen);
            proof {
                assert(rest@ =~= v@.subrange(vlen as int, vlen as int));
            }
            Ok((rest, v))
        },
    }
}

/// One fully parsed chat line.
#[derive(Debug, PartialEq, Eq)]
pub struct ChatMessage<'a> {
    pub meta_data: MetaData<'a>,
    pub prefix: &'a str,
    pub message_type: MessageType<'a>,
    pub destination: &'a str,
    pub message: &'a str,
}

/// The spec-level value of a [`ChatMessage`].
pub ghost struct ChatMessageV {
    pub meta_data: MetaDataV,
    pub prefix: Seq<char>,
    pub message_type: MessageTypeV,
    pub destination: Seq<char>,
    pub message: Seq<char>,
}

impl<'a> View for ChatMessage<'a> {
    type V = ChatMessageV;

    open spec fn view(&self) -> ChatMessageV {
        ChatMessageV {
            meta_data: self.meta_data@,
            prefix: self.prefix@,
            message_type: self.message_type@,
            destination: self.destination@,
            message: self.message@,
        }
    }
}

/// What parsing one whole line yields: the tag record, the sender prefix,
/// the command keyword, the destination, and the verbatim payload.
pub open spec fn spec_chat_message(s: Seq<char>) -> Option<ChatMessageV> {
    match spec_meta_data(s) {
        None => None,
        Some((s1, md)) => match spec_prefix(s1) {
            None => None,
            Some((s2, pfx)) => match spec_message_type(s2) {
                None => None,
                Some((s3, mt)) => match spec_destination(s3) {
                    None => None,
                    Some((s4, dst)) => match spec_message(s4) {
                        None => None,
                        Some(msg) => Some(
                            ChatMessageV {
                                meta_data: md,
                                prefix: pfx,
                                message_type: mt,
                                destination: dst,
                                message: msg,
                            },
                        ),
                    },
                },
            },
        },
    }
}

/// The failure stack of a whole line: that of the stage the input stops
/// satisfying, the earlier stages having succeeded.
#[verifier::opaque]
pub open spec fn spec_chat_message_error(s: Seq<char>) -> Seq<(Seq<char>, ErrorKindV)> {
    match spec_meta_data(s) {
        None => spec_meta_data_error(s),
        Some((s1, _)) => match spec_prefix(s1) {
            None => spec_prefix_error(s1),
            Some((s2, _)) => match spec_message_type(s2) {
                None => spec_message_type_error(s2),
                Some((s3, _)) => match spec_destination(s3) {
                    None => spec_destination_error(s3),
                    Some((s4, _)) => spec_message_error(s4),
                },
            },
        },
    }
}

impl<'a> ChatMessage<'a> {
    /// Parse one whole protocol line into a structured record.  Parsing is a
    /// pure function of the line: the same line always yields the same
    /// record, and the same failing line always yields the same failure.  On
    /// failure the error carries the ordered context stack — the failing
    /// field's contexts, innermost first, each with the input remaining at
    /// that level — and the caller still holds the raw line for fallback
    /// display.
    pub fn parse(input: &'a str) -> (r: Result<ChatMessage<'a>, ParseError<'a>>)
        ensures
            match r {
                Ok(m) => ({
                    let o = spec_chat_message(input@);
                    o matches Some(sv) && sv == m@
                }),
                Err(e) => spec_chat_message(input@) is None && e@ =~= spec_chat_message_error(
                    input@,
                ),
            },
    {
        proof {
            reveal(spec_chat_message_error);
        }
        let (s1, meta_data) = match MetaData::new(input) {
            Ok(x) => x,
            Err(e) => return Err(e),
        };
        let (s2, pfx) = match prefix(s1) {
            Ok(x) => x,
            Err(e) => return Err(e),
        };
        let (s3, mt) = match message_type(s2) {
            Ok(x) => x,
            Err(e) => return Err(e),
        };
        let (s4, dst) = match destination(s3) {
            Ok(x) => x,
            Err(e) => return Err(e),
        };
        let (_rest, msg) = match message(s4) {
            Ok(x) => x,
            Err(e) => return Err(e),
        };
        Ok(
            ChatMessage {
                meta_data,
                prefix: pfx,
                message_type: mt,
                destination: dst,
                message: msg,
            },
        )
    }
}

/// Parsing is deterministic: one input has at most one parse, so two parses
/// of the same line agree field for field.
pub proof fn lemma_parse_deterministic(s: Seq<char>, m1: ChatMessageV, m2: ChatMessageV)
    requires
        spec_chat_message(s) == Some(m1),
        spec_chat_message(s) == Some(m2),
    ensures
        m1 == m2,
{
}

/// Failures are deterministic too: one failing input has exactly one failure
/// stack, so two parses of the same failing line yield identical errors.
pub proof fn lemma_parse_error_deterministic(
    s: Seq<char>,
    e1: Seq<(Seq<char>, ErrorKindV)>,
    e2: Seq<(Seq<char>, ErrorKindV)>,
)
    requires
        e1 == spec_chat_message_error(s),
        e2 == spec_chat_message_error(s),
    ensures
        e1 == e2,
{
}

/// A line parses exactly as the composition of its stages: the tag record,
/// then the sender prefix, the command keyword, the destination, and the
/// verbatim payload, each consuming from the remainder the previous stage
/// left.
pub proof fn lemma_parse_is_stage_composition(
    s: Seq<char>,
    s1: Seq<char>,
    s2: Seq<char>,
    s3: Seq<char>,
    s4: Seq<char>,
    md: MetaDataV,
    pfx: Seq<char>,
    mt: MessageTypeV,
    dst: Seq<char>,
    msg: Seq<char>,
)
    requires
        spec_meta_data(s) == Some((s1, md)),
        spec_prefix(s1) == Some((s2, pfx)),
        spec_message_type(s2) == Some((s3, mt)),
        spec_destination(s3) == Some((s4, dst)),
        spec_message(s4) == Some(msg),
    ensures
        spec_chat_message(s) == Some(
            ChatMessageV { meta_data: md, prefix: pfx, message_type: mt, destination: dst, message: msg },
        ),
{
}

} // verus!
