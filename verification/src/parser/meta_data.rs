//! The per-line tag record and its field parsers.
//!
//! Tags arrive in a fixed, documented order, so each field parser consumes
//! exactly its own `;name=value` region and hands the rest on: a single
//! forward pass with no backtracking across fields.
use vstd::prelude::*;

use crate::parser::error::{ErrorKind, ErrorKindV, ParseError};
use crate::parser::scan::{
    CharClass, class_prefix_len, digits_val, hex_byte, hex_byte_val, in_class, parse_secs,
    parse_u32, scan0, scan1, spec_scan0, spec_scan1, spec_tag, expect_tag, take_class,
    lemma_digits_val_bound, pow10,
};
use crate::parser::tags;
use crate::parser::{Badges, Emote, EmoteV, spec_badge_of};

verus! {

/// The result of a field parser: the remaining input and the decoded value,
/// or a parse failure.
pub type PRes<'a, T> = Result<(&'a str, T), ParseError<'a>>;

/// A field is introduced by `;`, its name, and `=`.
pub open spec fn spec_field_intro(s: Seq<char>, name: Seq<char>) -> Option<Seq<char>> {
    match spec_tag(s, ";"@) {
        None => None,
        Some(s1) => match spec_tag(s1, name) {
            None => None,
            Some(s2) => spec_tag(s2, "="@),
        },
    }
}

/// The failure stack of `;name=`: one `Tag` entry at whichever of the three
/// literals stopped matching.
#[verifier::opaque]
pub open spec fn spec_intro_error(s: Seq<char>, name: Seq<char>) -> Seq<(Seq<char>, ErrorKindV)> {
    match spec_tag(s, ";"@) {
        None => seq![(s, ErrorKindV::Tag)],
        Some(s1) => match spec_tag(s1, name) {
            None => seq![(s1, ErrorKindV::Tag)],
            Some(s2) => seq![(s2, ErrorKindV::Tag)],
        },
    }
}

/// Consume `;name=` from the front of `i`.
fn field_intro<'a>(i: &'a str, name: &'static str) -> (r: Result<&'a str, ParseError<'a>>)
    ensures
        match r {
            Ok(rest) => spec_field_intro(i@, name@) == Some(rest@),
            Err(e) => spec_field_intro(i@, name@) is None && e@ =~= spec_intro_error(i@, name@),
        },
{
    proof {
        reveal(spec_intro_error);
    }
    let s1 = expect_tag(i, ";")?;
    let s2 = expect_tag(s1, name)?;
    let s3 = expect_tag(s2, "=")?;
    Ok(s3)
}

/// The truth value of a boolean tag: `0` decodes to false, any other run of
/// digits decodes to true.
pub open spec fn bool_of_digits(d: Seq<char>) -> bool {
    !(d.len() == 1 && d[0] == '0')
}

/// A boolean field: `;name=` followed by one or more digits.
pub open spec fn spec_bool_field(s: Seq<char>, name: Seq<char>) -> Option<(Seq<char>, bool)> {
    match spec_field_intro(s, name) {
        None => None,
        Some(s1) => match spec_scan1(CharClass::Digit, s1) {
            None => None,
            Some((rest, d)) => Some((rest, bool_of_digits(d))),
        },
    }
}

/// The failure stack of a boolean field: the introduction failure or a
/// `Digit` entry, under the field's context.
#[verifier::opaque]
pub open spec fn spec_bool_field_error(s: Seq<char>, name: Seq<char>) -> Seq<
    (Seq<char>, ErrorKindV),
> {
    match spec_field_intro(s, name) {
        None => spec_intro_error(s, name).push((s, ErrorKindV::Context(name))),
        Some(s1) => seq![(s1, ErrorKindV::Digit), (s, ErrorKindV::Context(name))],
    }
}

/// Parse `;name=<digits>` as a boolean.
fn bool_field<'a>(i: &'a str, name: &'static str) -> (r: PRes<'a, bool>)
    ensures
        match r {
            Ok((rest, v)) => spec_bool_field(i@, name@) == Some((rest@, v)),
            Err(e) => spec_bool_field(i@, name@) is None && e@ =~= spec_bool_field_error(
                i@,
                name@,
            ),
        },
{
    proof {
        reveal(spec_bool_field_error);
    }
    match field_intro(i, name) {
        Err(e) => Err(e.context(i, name)),
        Ok(s1) => match scan1(s1, CharClass::Digit, ErrorKind::Digit) {
            Err(e) => Err(e.context(i, name)),
            Ok((rest, d)) => {
                let dlen = d.unicode_len();
                let v = !(dlen == 1 && d.get_char(0) == '0');
                Ok((rest, v))
            },
        },
    }
}

/// A numeric field: `;name=` followed by one or more digits, decoded as a
/// `u32`.  A run of digits whose value does not fit is rejected.
pub open spec fn spec_u32_field(s: Seq<char>, name: Seq<char>) -> Option<(Seq<char>, u32)> {
    match spec_field_intro(s, name) {
        None => None,
        Some(s1) => match spec_scan1(CharClass::Digit, s1) {
            None => None,
            Some((rest, d)) => if digits_val(d) <= u32::MAX {
                Some((rest, digits_val(d) as u32))
            } else {
                None
            },
        },
    }
}

/// The failure stack of a numeric field: the introduction failure, a `Digit`
/// entry, or a `MapRes` entry when the digits do not fit, under the field's
/// context.
#[verifier::opaque]
pub open spec fn spec_u32_field_error(s: Seq<char>, name: Seq<char>) -> Seq<
    (Seq<char>, ErrorKindV),
> {
    match spec_field_intro(s, name) {
        None => spec_intro_error(s, name).push((s, ErrorKindV::Context(name))),
        Some(s1) => match spec_scan1(CharClass::Digit, s1) {
            None => seq![(s1, ErrorKindV::Digit), (s, ErrorKindV::Context(name))],
            Some((rest, d)) => seq![(rest, ErrorKindV::MapRes), (s, ErrorKindV::Context(name))],
        },
    }
}

/// Parse `;name=<digits>` as a `u32`.
fn u32_field<'a>(i: &'a str, name: &'static str) -> (r: PRes<'a, u32>)
    ensures
        match r {
            Ok((rest, v)) => spec_u32_field(i@, name@) == Some((rest@, v)),
            Err(e) => spec_u32_field(i@, name@) is None && e@ =~= spec_u32_field_error(
                i@,
                name@,
            ),
        },
{
    proof {
        reveal(spec_u32_field_error);
    }
    match field_intro(i, name) {
        Err(e) => Err(e.context(i, name)),
        Ok(s1) => match scan1(s1, CharClass::Digit, ErrorKind::Digit) {
            Err(e) => Err(e.context(i, name)),
            Ok((rest, d)) => {
                proof {
                    lemma_scan1_chars_in_class(CharClass::Digit, s1@);
                }
                match parse_u32(d) {
                    Some(v) => Ok((rest, v)),
                    None => Err(ParseError::leaf(rest, ErrorKind::MapRes).context(i, name)),
                }
            },
        },
    }
}

/// Everything a one-or-more scanner accepts belongs to its class.
pub proof fn lemma_scan1_chars_in_class(k: CharClass, s: Seq<char>)
    ensures
        spec_scan1(k, s) matches Some((rest, v)) ==> forall|j: int|
            0 <= j < v.len() ==> in_class(k, #[trigger] v[j]),
{
    if spec_scan1(k, s) is Some {
        lemma_prefix_in_class(k, s);
        let n = class_prefix_len(k, s) as int;
        let v = s.take(n);
        assert forall|j: int| 0 <= j < v.len() implies in_class(k, #[trigger] v[j]) by {
            assert(v[j] == s[j]);
        }
    }
}

proof fn lemma_prefix_in_class(k: CharClass, s: Seq<char>)
    ensures
        class_prefix_len(k, s) <= s.len(),
        forall|j: int| 0 <= j < class_prefix_len(k, s) ==> in_class(k, #[trigger] s[j]),
    decreases s.len(),
{
    if s.len() > 0 && in_class(k, s[0]) {
        lemma_prefix_in_class(k, s.skip(1));
        assert forall|j: int| 0 <= j < class_prefix_len(k, s) implies in_class(
            k,
            #[trigger] s[j],
        ) by {
            if j > 0 {
                assert(s.skip(1)[j - 1] == s[j]);
            }
        }
    }
}

/// A string field: `;name=` followed by one or more characters of class `k`.
pub open spec fn spec_class1_field(s: Seq<char>, name: Seq<char>, k: CharClass) -> Option<
    (Seq<char>, Seq<char>),
> {
    match spec_field_intro(s, name) {
        None => None,
        Some(s1) => spec_scan1(k, s1),
    }
}

/// The failure stack of a string field: the introduction failure or an
/// `AlphaNumeric` entry, under the field's context.
#[verifier::opaque]
pub open spec fn spec_class1_field_error(s: Seq<char>, name: Seq<char>, k: CharClass) -> Seq<
    (Seq<char>, ErrorKindV),
> {
    match spec_field_intro(s, name) {
        None => spec_intro_error(s, name).push((s, ErrorKindV::Context(name))),
        Some(s1) => seq![(s1, ErrorKindV::AlphaNumeric), (s, ErrorKindV::Context(name))],
    }
}

/// Parse `;name=<value>` where the value is one or more characters of class
/// `k`.
fn class1_field<'a>(i: &'a str, name: &'static str, k: CharClass) -> (r: PRes<'a, &'a str>)
    ensures
        match r {
            Ok((rest, v)) => spec_class1_field(i@, name@, k) == Some((rest@, v@)),
            Err(e) => spec_class1_field(i@, name@, k) is None && e@ =~= spec_class1_field_error(
                i@,
                name@,
                k,
            ),
        },
{
    proof {
        reveal(spec_class1_field_error);
    }
    match field_intro(i, name) {
        Err(e) => Err(e.context(i, name)),
        Ok(s1) => match scan1(s1, k, ErrorKind::AlphaNumeric) {
            Err(e) => Err(e.context(i, name)),
            Ok((rest, v)) => Ok((rest, v)),
        },
    }
}

/// A string field whose value may be empty: `;name=` followed by zero or more
/// characters of class `k`.
pub open spec fn spec_class0_field(s: Seq<char>, name: Seq<char>, k: CharClass) -> Option<
    (Seq<char>, Seq<char>),
> {
    match spec_field_intro(s, name) {
        None => None,
        Some(s1) => Some(spec_scan0(k, s1)),
    }
}

/// The failure stack of a field that can only fail in its introduction.
#[verifier::opaque]
pub open spec fn spec_intro_only_error(s: Seq<char>, name: Seq<char>) -> Seq<
    (Seq<char>, ErrorKindV),
> {
    spec_intro_error(s, name).push((s, ErrorKindV::Context(name)))
}

/// Parse `;name=<value>` where the value is zero or more characters of class
/// `k`.
fn class0_field<'a>(i: &'a str, name: &'static str, k: CharClass) -> (r: PRes<'a, &'a str>)
    ensures
        match r {
            Ok((rest, v)) => spec_class0_field(i@, name@, k) == Some((rest@, v@)),
            Err(e) => spec_class0_field(i@, name@, k) is None && e@ =~= spec_intro_only_error(
                i@,
                name@,
            ),
        },
{
    proof {
        reveal(spec_intro_only_error);
    }
    match field_intro(i, name) {
        Err(e) => Err(e.context(i, name)),
        Ok(s1) => {
            let (rest, v) = scan0(s1, k);
            Ok((rest, v))
        },
    }
}

/// A string field whose value is optional: `;name=` followed by either one or
/// more characters of class `k` or nothing.
pub open spec fn spec_opt_value_field(s: Seq<char>, name: Seq<char>, k: CharClass) -> Option<
    (Seq<char>, Option<Seq<char>>),
> {
    match spec_field_intro(s, name) {
        None => None,
        Some(s1) => match spec_scan1(k, s1) {
            Some((rest, v)) => Some((rest, Some(v))),
            None => Some((s1, None)),
        },
    }
}

/// Parse `;name=` followed by an optional value of class `k`.
fn opt_value_field<'a>(i: &'a str, name: &'static str, k: CharClass) -> (r: PRes<
    'a,
    Option<&'a str>,
>)
    ensures
        match r {
            Ok((rest, v)) => ({
                let o = spec_opt_value_field(i@, name@, k);
                o matches Some((orest, ov)) && orest == rest@ && (match v {
                    Some(x) => ov == Some(x@),
                    None => ov is None,
                })
            }),
            Err(e) => spec_opt_value_field(i@, name@, k) is None && e@
                =~= spec_intro_only_error(i@, name@),
        },
{
    proof {
        reveal(spec_intro_only_error);
    }
    match field_intro(i, name) {
        Err(e) => Err(e.context(i, name)),
        Ok(s1) => match scan1(s1, k, ErrorKind::AlphaNumeric) {
            Ok((rest, v)) => Ok((rest, Some(v))),
            Err(_) => Ok((s1, None)),
        },
    }
}


// The named field parsers, one per tag, in the service's emission order.

pub open spec fn spec_client_nonce(s: Seq<char>) -> Option<(Seq<char>, Seq<char>)> {
    spec_class1_field(s, tags::CLIENT_NONCE@, CharClass::Alnum)
}

/// Parse the `client-nonce` tag.
pub fn client_nonce<'a>(i: &'a str) -> (r: PRes<'a, &'a str>)
    ensures
        match r {
            Ok((rest, v)) => spec_client_nonce(i@) == Some((rest@, v@)),
            Err(e) => spec_client_nonce(i@) is None && e@ =~= spec_class1_field_error(i@, tags::CLIENT_NONCE@, CharClass::Alnum),
        },
{
    class1_field(i, tags::CLIENT_NONCE, CharClass::Alnum)
}

pub open spec fn spec_bits(s: Seq<char>) -> Option<(Seq<char>, u32)> {
    spec_u32_field(s, tags::BITS@)
}

/// Parse the `bits` tag.
pub fn bits<'a>(i: &'a str) -> (r: PRes<'a, u32>)
    ensures
        match r {
            Ok((rest, v)) => spec_bits(i@) == Some((rest@, v)),
            Err(e) => spec_bits(i@) is None && e@ =~= spec_u32_field_error(i@, tags::BITS@),
        },
{
    u32_field(i, tags::BITS)
}

pub open spec fn spec_display_name(s: Seq<char>) -> Option<(Seq<char>, Option<Seq<char>>)> {
    spec_opt_value_field(s, tags::DISPLAY_NAME@, CharClass::Username)
}

/// Parse the `display-name` tag; the value itself may be absent.
pub fn display_name<'a>(i: &'a str) -> (r: PRes<'a, Option<&'a str>>)
    ensures
        match r {
            Ok((rest, v)) => ({
                let o = spec_display_name(i@);
                o matches Some((orest, ov)) && orest == rest@ && (match v {
                    Some(x) => ov == Some(x@),
                    None => ov is None,
                })
            }),
            Err(e) => spec_display_name(i@) is None && e@ =~= spec_intro_only_error(i@, tags::DISPLAY_NAME@),
        },
{
    opt_value_field(i, tags::DISPLAY_NAME, CharClass::Username)
}

pub open spec fn spec_emote_only(s: Seq<char>) -> Option<(Seq<char>, bool)> {
    spec_bool_field(s, tags::EMOTE_ONLY@)
}

/// Parse the `emote-only` boolean tag.
pub fn emote_only<'a>(i: &'a str) -> (r: PRes<'a, bool>)
    ensures
        match r {
            Ok((rest, v)) => spec_emote_only(i@) == Some((rest@, v)),
            Err(e) => spec_emote_only(i@) is None && e@ =~= spec_bool_field_error(i@, tags::EMOTE_ONLY@),
        },
{
    bool_field(i, tags::EMOTE_ONLY)
}

pub open spec fn spec_first_msg(s: Seq<char>) -> Option<(Seq<char>, bool)> {
    spec_bool_field(s, tags::FIRST_MSG@)
}

/// Parse the `first-msg` boolean tag.
pub fn first_msg<'a>(i: &'a str) -> (r: PRes<'a, bool>)
    ensures
        match r {
            Ok((rest, v)) => spec_first_msg(i@) == Some((rest@, v)),
            Err(e) => spec_first_msg(i@) is None && e@ =~= spec_bool_field_error(i@, tags::FIRST_MSG@),
        },
{
    bool_field(i, tags::FIRST_MSG)
}

pub open spec fn spec_flags(s: Seq<char>) -> Option<(Seq<char>, Option<Seq<char>>)> {
    spec_opt_value_field(s, tags::FLAGS@, CharClass::Flag)
}

/// Parse the `flags` tag; the value itself may be absent.
pub fn flags<'a>(i: &'a str) -> (r: PRes<'a, Option<&'a str>>)
    ensures
        match r {
            Ok((rest, v)) => ({
                let o = spec_flags(i@);
                o matches Some((orest, ov)) && orest == rest@ && (match v {
                    Some(x) => ov == Some(x@),
                    None => ov is None,
                })
            }),
            Err(e) => spec_flags(i@) is None && e@ =~= spec_intro_only_error(i@, tags::FLAGS@),
        },
{
    opt_value_field(i, tags::FLAGS, CharClass::Flag)
}

pub open spec fn spec_id(s: Seq<char>) -> Option<(Seq<char>, Seq<char>)> {
    spec_class1_field(s, tags::ID@, CharClass::Name)
}

/// Parse the mandatory `id` tag.
pub fn id<'a>(i: &'a str) -> (r: PRes<'a, &'a str>)
    ensures
        match r {
            Ok((rest, v)) => spec_id(i@) == Some((rest@, v@)),
            Err(e) => spec_id(i@) is None && e@ =~= spec_class1_field_error(i@, tags::ID@, CharClass::Name),
        },
{
    class1_field(i, tags::ID, CharClass::Name)
}

pub open spec fn spec_moderator(s: Seq<char>) -> Option<(Seq<char>, bool)> {
    spec_bool_field(s, tags::MODERATOR@)
}

/// Parse the `mod` boolean tag.
pub fn moderator<'a>(i: &'a str) -> (r: PRes<'a, bool>)
    ensures
        match r {
            Ok((rest, v)) => spec_moderator(i@) == Some((rest@, v)),
            Err(e) => spec_moderator(i@) is None && e@ =~= spec_bool_field_error(i@, tags::MODERATOR@),
        },
{
    bool_field(i, tags::MODERATOR)
}

pub open spec fn spec_subscriber(s: Seq<char>) -> Option<(Seq<char>, bool)> {
    spec_bool_field(s, tags::SUBSCRIBER@)
}

/// Parse the `subscriber` boolean tag.
pub fn subscriber<'a>(i: &'a str) -> (r: PRes<'a, bool>)
    ensures
        match r {
            Ok((rest, v)) => spec_subscriber(i@) == Some((rest@, v)),
            Err(e) => spec_subscriber(i@) is None && e@ =~= spec_bool_field_error(i@, tags::SUBSCRIBER@),
        },
{
    bool_field(i, tags::SUBSCRIBER)
}

pub open spec fn spec_turbo(s: Seq<char>) -> Option<(Seq<char>, bool)> {
    spec_bool_field(s, tags::TURBO@)
}

/// Parse the `turbo` boolean tag.
pub fn turbo<'a>(i: &'a str) -> (r: PRes<'a, bool>)
    ensures
        match r {
            Ok((rest, v)) => spec_turbo(i@) == Some((rest@, v)),
            Err(e) => spec_turbo(i@) is None && e@ =~= spec_bool_field_error(i@, tags::TURBO@),
        },
{
    bool_field(i, tags::TURBO)
}

pub open spec fn spec_room_id(s: Seq<char>) -> Option<(Seq<char>, u32)> {
    spec_u32_field(s, tags::ROOM_ID@)
}

/// Parse the mandatory `room-id` tag.
pub fn room_id<'a>(i: &'a str) -> (r: PRes<'a, u32>)
    ensures
        match r {
            Ok((rest, v)) => spec_room_id(i@) == Some((rest@, v)),
            Err(e) => spec_room_id(i@) is None && e@ =~= spec_u32_field_error(i@, tags::ROOM_ID@),
        },
{
    u32_field(i, tags::ROOM_ID)
}

pub open spec fn spec_user_id(s: Seq<char>) -> Option<(Seq<char>, u32)> {
    spec_u32_field(s, tags::USER_ID@)
}

/// Parse the mandatory `user-id` tag.
pub fn user_id<'a>(i: &'a str) -> (r: PRes<'a, u32>)
    ensures
        match r {
            Ok((rest, v)) => spec_user_id(i@) == Some((rest@, v)),
            Err(e) => spec_user_id(i@) is None && e@ =~= spec_u32_field_error(i@, tags::USER_ID@),
        },
{
    u32_field(i, tags::USER_ID)
}

pub open spec fn spec_user_type(s: Seq<char>) -> Option<(Seq<char>, Seq<char>)> {
    spec_class0_field(s, tags::USER_TYPE@, CharClass::Alnum)
}

/// Parse the `user-type` tag; the value may be empty.
pub fn user_type<'a>(i: &'a str) -> (r: PRes<'a, &'a str>)
    ensures
        match r {
            Ok((rest, v)) => spec_user_type(i@) == Some((rest@, v@)),
            Err(e) => spec_user_type(i@) is None && e@ =~= spec_intro_only_error(i@, tags::USER_TYPE@),
        },
{
    class0_field(i, tags::USER_TYPE, CharClass::Alnum)
}

pub open spec fn spec_reply_parent_display_name(s: Seq<char>) -> Option<(Seq<char>, Seq<char>)> {
    spec_class1_field(s, tags::REPLY_PARENT_DISPLAY_NAME@, CharClass::Username)
}

/// Parse the `reply-parent-display-name` tag.
pub fn reply_parent_display_name<'a>(i: &'a str) -> (r: PRes<'a, &'a str>)
    ensures
        match r {
            Ok((rest, v)) => spec_reply_parent_display_name(i@) == Some((rest@, v@)),
            Err(e) => spec_reply_parent_display_name(i@) is None && e@
                =~= spec_class1_field_error(
                i@,
                tags::REPLY_PARENT_DISPLAY_NAME@,
                CharClass::Username,
            ),
        },
{
    class1_field(i, tags::REPLY_PARENT_DISPLAY_NAME, CharClass::Username)
}

pub open spec fn spec_reply_parent_msg_body(s: Seq<char>) -> Option<(Seq<char>, Seq<char>)> {
    spec_class0_field(s, tags::REPLY_PARENT_MSG_BODY@, CharClass::Body)
}

/// Parse the `reply-parent-msg-body` tag: everything up to the next `;`.
pub fn reply_parent_msg_body<'a>(i: &'a str) -> (r: PRes<'a, &'a str>)
    ensures
        match r {
            Ok((rest, v)) => spec_reply_parent_msg_body(i@) == Some((rest@, v@)),
            Err(e) => spec_reply_parent_msg_body(i@) is None && e@ =~= spec_intro_only_error(i@, tags::REPLY_PARENT_MSG_BODY@),
        },
{
    class0_field(i, tags::REPLY_PARENT_MSG_BODY, CharClass::Body)
}

pub open spec fn spec_reply_parent_msg_id(s: Seq<char>) -> Option<(Seq<char>, Seq<char>)> {
    spec_class1_field(s, tags::REPLY_PARENT_MSG_ID@, CharClass::Name)
}

/// Parse the `reply-parent-msg-id` tag.
pub fn reply_parent_msg_id<'a>(i: &'a str) -> (r: PRes<'a, &'a str>)
    ensures
        match r {
            Ok((rest, v)) => spec_reply_parent_msg_id(i@) == Some((rest@, v@)),
            Err(e) => spec_reply_parent_msg_id(i@) is None && e@ =~= spec_class1_field_error(i@, tags::REPLY_PARENT_MSG_ID@, CharClass::Name),
        },
{
    class1_field(i, tags::REPLY_PARENT_MSG_ID, CharClass::Name)
}

pub open spec fn spec_reply_parent_user_id(s: Seq<char>) -> Option<(Seq<char>, u32)> {
    spec_u32_field(s, tags::REPLY_PARENT_USER_ID@)
}

/// Parse the `reply-parent-user-id` tag.
pub fn reply_parent_user_id<'a>(i: &'a str) -> (r: PRes<'a, u32>)
    ensures
        match r {
            Ok((rest, v)) => spec_reply_parent_user_id(i@) == Some((rest@, v)),
            Err(e) => spec_reply_parent_user_id(i@) is None && e@ =~= spec_u32_field_error(i@, tags::REPLY_PARENT_USER_ID@),
        },
{
    u32_field(i, tags::REPLY_PARENT_USER_ID)
}

pub open spec fn spec_reply_parent_user_login(s: Seq<char>) -> Option<(Seq<char>, Seq<char>)> {
    spec_class1_field(s, tags::REPLY_PARENT_USER_LOGIN@, CharClass::Username)
}

/// Parse the `reply-parent-user-login` tag.
pub fn reply_parent_user_login<'a>(i: &'a str) -> (r: PRes<'a, &'a str>)
    ensures
        match r {
            Ok((rest, v)) => spec_reply_parent_user_login(i@) == Some((rest@, v@)),
            Err(e) => spec_reply_parent_user_login(i@) is None && e@
                =~= spec_class1_field_error(
                i@,
                tags::REPLY_PARENT_USER_LOGIN@,
                CharClass::Username,
            ),
        },
{
    class1_field(i, tags::REPLY_PARENT_USER_LOGIN, CharClass::Username)
}

/// The failure stack of the `tmi-sent-ts` tag: the introduction failure, a
/// `Digit` entry, or a `Count` entry at the digit run when it is shorter than
/// ten digits, under the field's context.
#[verifier::opaque]
pub open spec fn spec_tmi_sent_ts_error(s: Seq<char>) -> Seq<(Seq<char>, ErrorKindV)> {
    match spec_field_intro(s, "tmi-sent-ts"@) {
        None => spec_intro_error(s, "tmi-sent-ts"@).push((s, ErrorKindV::Context("tmi-sent-ts"@))),
        Some(s1) => match spec_scan1(CharClass::Digit, s1) {
            None => seq![(s1, ErrorKindV::Digit), (s, ErrorKindV::Context("tmi-sent-ts"@))],
            Some((rest, d)) => seq![(d, ErrorKindV::Count), (s, ErrorKindV::Context("tmi-sent-ts"@))],
        },
    }
}

/// The `tmi-sent-ts` tag: a run of at least ten digits, of which the first
/// ten are decoded as whole seconds.  The wire value is milliseconds; taking
/// the first ten digits as seconds is the historical decoding and is kept
/// as-is.
pub open spec fn spec_tmi_sent_ts(s: Seq<char>) -> Option<(Seq<char>, u64)> {
    match spec_field_intro(s, "tmi-sent-ts"@) {
        None => None,
        Some(s1) => match spec_scan1(CharClass::Digit, s1) {
            None => None,
            Some((rest, d)) => if d.len() >= 10 {
                Some((rest, digits_val(d.take(10)) as u64))
            } else {
                None
            },
        },
    }
}

/// Parse the `tmi-sent-ts` tag as whole seconds.
pub fn tmi_sent_ts<'a>(i: &'a str) -> (r: PRes<'a, u64>)
    ensures
        match r {
            Ok((rest, v)) => spec_tmi_sent_ts(i@) == Some((rest@, v)),
            Err(e) => spec_tmi_sent_ts(i@) is None && e@ =~= spec_tmi_sent_ts_error(i@),
        },
{
    proof {
        reveal(spec_tmi_sent_ts_error);
    }
    match field_intro(i, "tmi-sent-ts") {
        Err(e) => Err(e.context(i, "tmi-sent-ts")),
        Ok(s1) => match scan1(s1, CharClass::Digit, ErrorKind::Digit) {
            Err(e) => Err(e.context(i, "tmi-sent-ts")),
            Ok((rest, d)) => {
                proof {
                    lemma_scan1_chars_in_class(CharClass::Digit, s1@);
                }
                let dlen = d.unicode_len();
                if dlen < 10 {
                    Err(ParseError::leaf(d, ErrorKind::Count).context(i, "tmi-sent-ts"))
                } else {
                    let secs = parse_secs(d);
                    proof {
                        lemma_digits_val_bound(d@.take(10));
                        assert(forall|j: int|
                            0 <= j < d@.take(10).len() ==> in_class(
                                CharClass::Digit,
                                #[trigger] d@.take(10)[j],
                            ));
                        assert(pow10(10) == 10000000000) by {
                            reveal_with_fuel(pow10, 11);
                        }
                    }
                    Ok((rest, secs))
                }
            },
        },
    }
}


// Badge lists: `name/version` pairs separated by commas.

/// One badge: a name, `/`, and a version string.  An unrecognized name
/// degrades to `Badges::Unimplemented`; it never fails the parse.
pub open spec fn spec_badge_format(s: Seq<char>) -> Option<(Seq<char>, (Badges, Seq<char>))> {
    match spec_scan1(CharClass::Name, s) {
        None => None,
        Some((s1, nm)) => match spec_tag(s1, "/"@) {
            None => None,
            Some(s2) => match spec_scan1(CharClass::Version, s2) {
                None => None,
                Some((rest, ver)) => Some((rest, (spec_badge_of(nm), ver))),
            },
        },
    }
}

/// A successful badge parse consumes at least one character.
pub proof fn lemma_badge_format_consumes(s: Seq<char>)
    ensures
        spec_badge_format(s) matches Some((rest, v)) ==> rest.len() < s.len(),
{
    reveal_strlit("/");
    if spec_scan1(CharClass::Name, s) is Some {
        lemma_prefix_in_class(CharClass::Name, s);
        let n1 = class_prefix_len(CharClass::Name, s) as int;
        let s1 = s.skip(n1);
        if spec_tag(s1, "/"@) is Some {
            let s2 = s1.skip(1);
            if spec_scan1(CharClass::Version, s2) is Some {
                lemma_prefix_in_class(CharClass::Version, s2);
            }
        }
    }
}

/// The failure stack of one badge: a missing name or version run, or the
/// missing `/`, under the badge context.
#[verifier::opaque]
pub open spec fn spec_badge_format_error(s: Seq<char>) -> Seq<(Seq<char>, ErrorKindV)> {
    match spec_scan1(CharClass::Name, s) {
        None => seq![
            (s, ErrorKindV::AlphaNumeric),
            (s, ErrorKindV::Context(tags::BADGE_FORMAT@)),
        ],
        Some((s1, nm)) => match spec_tag(s1, "/"@) {
            None => seq![(s1, ErrorKindV::Tag), (s, ErrorKindV::Context(tags::BADGE_FORMAT@))],
            Some(s2) => seq![
                (s2, ErrorKindV::AlphaNumeric),
                (s, ErrorKindV::Context(tags::BADGE_FORMAT@)),
            ],
        },
    }
}

/// Parse one `name/version` badge.
pub fn badge_format<'a>(i: &'a str) -> (r: PRes<'a, (Badges, &'a str)>)
    ensures
        match r {
            Ok((rest, v)) => ({
                let o = spec_badge_format(i@);
                o matches Some((srest, sv)) && srest == rest@ && sv.0 == v.0 && sv.1 == v.1@
            }),
            Err(e) => spec_badge_format(i@) is None && e@ =~= spec_badge_format_error(i@),
        },
{
    proof {
        reveal(spec_badge_format_error);
    }
    match scan1(i, CharClass::Name, ErrorKind::AlphaNumeric) {
        Err(e) => Err(e.context(i, tags::BADGE_FORMAT)),
        Ok((s1, nm)) => match expect_tag(s1, "/") {
            Err(e) => Err(e.context(i, tags::BADGE_FORMAT)),
            Ok(s2) => match scan1(s2, CharClass::Version, ErrorKind::AlphaNumeric) {
                Err(e) => Err(e.context(i, tags::BADGE_FORMAT)),
                Ok((rest, ver)) => Ok((rest, (Badges::from(nm), ver))),
            },
        },
    }
}

/// The spec-level value of a badge vector.
pub open spec fn badge_items_view(v: Seq<(Badges, &str)>) -> Seq<(Badges, Seq<char>)> {
    v.map_values(|p: (Badges, &str)| (p.0, p.1@))
}

/// The badges after the first: `,` followed by one badge, repeated until
/// either stops matching.
pub open spec fn spec_badge_list_more(s: Seq<char>, acc: Seq<(Badges, Seq<char>)>) -> (
    Seq<char>,
    Seq<(Badges, Seq<char>)>,
)
    decreases s.len(),
{
    match spec_tag(s, ","@) {
        None => (s, acc),
        Some(s1) => match spec_badge_format(s1) {
            None => (s, acc),
            Some((s2, b)) => if s2.len() < s.len() {
                spec_badge_list_more(s2, acc.push(b))
            } else {
                (s, acc)
            },
        },
    }
}

/// A possibly empty list of badges separated by commas.
pub open spec fn spec_badge_list(s: Seq<char>) -> (Seq<char>, Seq<(Badges, Seq<char>)>) {
    match spec_badge_format(s) {
        None => (s, Seq::empty()),
        Some((s1, b)) => spec_badge_list_more(s1, seq![b]),
    }
}

/// Parse a possibly empty comma-separated list of badges.
fn badge_list<'a>(i: &'a str) -> (r: (&'a str, Vec<(Badges, &'a str)>))
    ensures
        spec_badge_list(i@).0 == r.0@,
        spec_badge_list(i@).1 == badge_items_view(r.1@),
{
    let mut items: Vec<(Badges, &'a str)> = Vec::new();
    let mut cur: &'a str;
    match badge_format(i) {
        Err(_) => {
            assert(badge_items_view(items@) =~= Seq::<(Badges, Seq<char>)>::empty());
            return (i, items);
        },
        Ok((s1, b)) => {
            items.push(b);
            cur = s1;
            proof {
                assert(badge_items_view(items@) =~= seq![(b.0, b.1@)]);
            }
        },
    }
    loop
        invariant
            spec_badge_list(i@) == spec_badge_list_more(cur@, badge_items_view(items@)),
        decreases cur@.len(),
    {
        match expect_tag(cur, ",") {
            Err(_) => {
                return (cur, items);
            },
            Ok(s1) => match badge_format(s1) {
                Err(_) => {
                    return (cur, items);
                },
                Ok((s2, b)) => {
                    proof {
                        lemma_badge_format_consumes(s1@);
                        assert(badge_items_view(items@.push(b)) =~= badge_items_view(
                            items@,
                        ).push((b.0, b.1@)));
                    }
                    items.push(b);
                    cur = s2;
                },
            },
        }
    }
}

/// A badge-list field: an optional leading `@` or `;`, the field name, `=`,
/// and the list.
pub open spec fn spec_badge_header(s: Seq<char>, name: Seq<char>) -> Option<Seq<char>> {
    let s0 = if s.len() > 0 && (s[0] == '@' || s[0] == ';') {
        s.skip(1)
    } else {
        s
    };
    match spec_tag(s0, name) {
        None => None,
        Some(s1) => spec_tag(s1, "="@),
    }
}

pub open spec fn spec_badge_info(s: Seq<char>) -> Option<(Seq<char>, Seq<(Badges, Seq<char>)>)> {
    match spec_badge_header(s, tags::BADGE_INFO@) {
        None => None,
        Some(s1) => Some(spec_badge_list(s1)),
    }
}

pub open spec fn spec_badges(s: Seq<char>) -> Option<(Seq<char>, Seq<(Badges, Seq<char>)>)> {
    match spec_badge_header(s, tags::BADGES@) {
        None => None,
        Some(s1) => Some(spec_badge_list(s1)),
    }
}

/// The failure stack of a badge-list field: the missing field name or the
/// missing `=`, under the field's context.
#[verifier::opaque]
pub open spec fn spec_badge_field_error(s: Seq<char>, name: Seq<char>) -> Seq<
    (Seq<char>, ErrorKindV),
> {
    let s0 = if s.len() > 0 && (s[0] == '@' || s[0] == ';') {
        s.skip(1)
    } else {
        s
    };
    match spec_tag(s0, name) {
        None => seq![(s0, ErrorKindV::Tag), (s, ErrorKindV::Context(name))],
        Some(s1) => seq![(s1, ErrorKindV::Tag), (s, ErrorKindV::Context(name))],
    }
}

/// Parse a badge-list field introduced by `name=`.
fn badge_field<'a>(i: &'a str, name: &'static str) -> (r: PRes<'a, Vec<(Badges, &'a str)>>)
    ensures
        match r {
            Ok((rest, v)) => ({
                let o = match spec_badge_header(i@, name@) {
                    None => None,
                    Some(s1) => Some(spec_badge_list(s1)),
                };
                o matches Some((srest, sv)) && srest == rest@ && sv == badge_items_view(v@)
            }),
            Err(e) => (match spec_badge_header(i@, name@) {
                None => None,
                Some(s1) => Some(spec_badge_list(s1)),
            }) is None && e@ =~= spec_badge_field_error(i@, name@),
        },
{
    proof {
        reveal(spec_badge_field_error);
    }
    let ilen = i.unicode_len();
    let s0: &'a str = if ilen > 0 && (i.get_char(0) == '@' || i.get_char(0) == ';') {
        let t = i.substring_char(1, ilen);
        proof {
            assert(t@ =~= i@.skip(1));
        }
        t
    } else {
        i
    };
    match expect_tag(s0, name) {
        Err(e) => Err(e.context(i, name)),
        Ok(s1) => match expect_tag(s1, "=") {
            Err(e) => Err(e.context(i, name)),
            Ok(s2) => {
                let (rest, items) = badge_list(s2);
                Ok((rest, items))
            },
        },
    }
}

/// Parse the `badge-info` tag and its badge list.
pub fn badge_info<'a>(i: &'a str) -> (r: PRes<'a, Vec<(Badges, &'a str)>>)
    ensures
        match r {
            Ok((rest, v)) => ({
                let o = spec_badge_info(i@);
                o matches Some((srest, sv)) && srest == rest@ && sv == badge_items_view(v@)
            }),
            Err(e) => spec_badge_info(i@) is None && e@ =~= spec_badge_field_error(
                i@,
                tags::BADGE_INFO@,
            ),
        },
{
    badge_field(i, tags::BADGE_INFO)
}

/// Parse the `badges` tag and its badge list.
pub fn badges<'a>(i: &'a str) -> (r: PRes<'a, Vec<(Badges, &'a str)>>)
    ensures
        match r {
            Ok((rest, v)) => ({
                let o = spec_badges(i@);
                o matches Some((srest, sv)) && srest == rest@ && sv == badge_items_view(v@)
            }),
            Err(e) => spec_badges(i@) is None && e@ =~= spec_badge_field_error(
                i@,
                tags::BADGES@,
            ),
        },
{
    badge_field(i, tags::BADGES)
}


// The color field: `#RRGGBB` with exactly six upper-case hex digits, or an
// empty value.

/// A hex color: `#` followed by exactly six upper-case hexadecimal digits,
/// decoded as (red, green, blue).
pub open spec fn spec_hex_color(s: Seq<char>) -> Option<(Seq<char>, (u8, u8, u8))> {
    match spec_tag(s, "#"@) {
        None => None,
        Some(s1) => if class_prefix_len(CharClass::HexUpper, s1) == 6 {
            Some(
                (
                    s1.skip(6),
                    (
                        hex_byte_val(s1[0], s1[1]) as u8,
                        hex_byte_val(s1[2], s1[3]) as u8,
                        hex_byte_val(s1[4], s1[5]) as u8,
                    ),
                ),
            )
        } else {
            None
        },
    }
}

/// The failure stack of a hex color: the missing `#`, no hex digit at all, or
/// a run of other than six hex digits, under the hex-color context.
#[verifier::opaque]
pub open spec fn spec_hex_color_error(s: Seq<char>) -> Seq<(Seq<char>, ErrorKindV)> {
    match spec_tag(s, "#"@) {
        None => seq![(s, ErrorKindV::Tag), (s, ErrorKindV::Context("parse hex to rgb"@))],
        Some(s1) => if class_prefix_len(CharClass::HexUpper, s1) == 0 {
            seq![
                (s1, ErrorKindV::OneOf),
                (s1, ErrorKindV::Many1),
                (s, ErrorKindV::Context("parse hex to rgb"@)),
            ]
        } else {
            seq![(s1, ErrorKindV::Count), (s, ErrorKindV::Context("parse hex to rgb"@))]
        },
    }
}

/// Parse `#RRGGBB` as an (red, green, blue) triple.  Exactly six hex digits
/// are required; fewer or more are rejected.
pub fn hex_to_rgb<'a>(i: &'a str) -> (r: PRes<'a, (u8, u8, u8)>)
    ensures
        match r {
            Ok((rest, v)) => spec_hex_color(i@) == Some((rest@, v)),
            Err(e) => spec_hex_color(i@) is None && e@ =~= spec_hex_color_error(i@),
        },
{
    proof {
        reveal(spec_hex_color_error);
    }
    match expect_tag(i, "#") {
        Err(e) => Err(e.context(i, "parse hex to rgb")),
        Ok(s1) => {
            let n = take_class(s1, CharClass::HexUpper);
            if n == 0 {
                Err(
                    ParseError::leaf(s1, ErrorKind::OneOf).push(s1, ErrorKind::Many1).context(
                        i,
                        "parse hex to rgb",
                    ),
                )
            } else if n != 6 {
                Err(ParseError::leaf(s1, ErrorKind::Count).context(i, "parse hex to rgb"))
            } else {
                proof {
                    lemma_prefix_in_class(CharClass::HexUpper, s1@);
                }
                let len = s1.unicode_len();
                let red = hex_byte(s1.get_char(0), s1.get_char(1));
                let green = hex_byte(s1.get_char(2), s1.get_char(3));
                let blue = hex_byte(s1.get_char(4), s1.get_char(5));
                let rest = s1.substring_char(6, len);
                Ok((rest, (red, green, blue)))
            }
        },
    }
}

/// The `color` tag: `@` or `;`, `color=`, then either a hex color or nothing.
pub open spec fn spec_color(s: Seq<char>) -> Option<(Seq<char>, Option<(u8, u8, u8)>)> {
    if s.len() > 0 && (s[0] == '@' || s[0] == ';') {
        match spec_tag(s.skip(1), tags::COLOR@) {
            None => None,
            Some(s1) => match spec_tag(s1, "="@) {
                None => None,
                Some(s2) => match spec_hex_color(s2) {
                    Some((rest, v)) => Some((rest, Some(v))),
                    None => Some((s2, None)),
                },
            },
        }
    } else {
        None
    }
}

/// The failure stack of the `color` tag: the missing `@` or `;`, the missing
/// tag name, or the missing `=`, under the field's context.  A malformed hex
/// value is not a failure of this field; it decodes as the empty value left
/// in place.
#[verifier::opaque]
pub open spec fn spec_color_error(s: Seq<char>) -> Seq<(Seq<char>, ErrorKindV)> {
    if s.len() > 0 && (s[0] == '@' || s[0] == ';') {
        match spec_tag(s.skip(1), tags::COLOR@) {
            None => seq![(s.skip(1), ErrorKindV::Tag), (s, ErrorKindV::Context(tags::COLOR@))],
            Some(s1) => seq![(s1, ErrorKindV::Tag), (s, ErrorKindV::Context(tags::COLOR@))],
        }
    } else {
        seq![(s, ErrorKindV::Tag), (s, ErrorKindV::Context(tags::COLOR@))]
    }
}

/// Parse the `color` tag; the value is either a hex color or empty.
pub fn color<'a>(i: &'a str) -> (r: PRes<'a, Option<(u8, u8, u8)>>)
    ensures
        match r {
            Ok((rest, v)) => spec_color(i@) == Some((rest@, v)),
            Err(e) => spec_color(i@) is None && e@ =~= spec_color_error(i@),
        },
{
    proof {
        reveal(spec_color_error);
    }
    let ilen = i.unicode_len();
    if !(ilen > 0 && (i.get_char(0) == '@' || i.get_char(0) == ';')) {
        return Err(ParseError::leaf(i, ErrorKind::Tag).context(i, tags::COLOR));
    }
    let s0 = i.substring_char(1, ilen);
    proof {
        assert(s0@ =~= i@.skip(1));
    }
    match expect_tag(s0, tags::COLOR) {
        Err(e) => Err(e.context(i, tags::COLOR)),
        Ok(s1) => match expect_tag(s1, "=") {
            Err(e) => Err(e.context(i, tags::COLOR)),
            Ok(s2) => match hex_to_rgb(s2) {
                Ok((rest, v)) => Ok((rest, Some(v))),
                Err(_) => Ok((s2, None)),
            },
        },
    }
}


// Emotes: `id:start-end,start-end/.../id:start-end`.

/// One `start-end` range, as the two digit runs.
pub open spec fn spec_range_pair(s: Seq<char>) -> Option<(Seq<char>, (Seq<char>, Seq<char>))> {
    match spec_scan1(CharClass::Digit, s) {
        None => None,
        Some((s1, a)) => match spec_tag(s1, "-"@) {
            None => None,
            Some(s2) => match spec_scan1(CharClass::Digit, s2) {
                None => None,
                Some((rest, b)) => Some((rest, (a, b))),
            },
        },
    }
}

/// A successful range parse consumes at least one character.
pub proof fn lemma_range_pair_consumes(s: Seq<char>)
    ensures
        spec_range_pair(s) matches Some((rest, v)) ==> rest.len() < s.len(),
{
    reveal_strlit("-");
    if spec_scan1(CharClass::Digit, s) is Some {
        lemma_prefix_in_class(CharClass::Digit, s);
        let n1 = class_prefix_len(CharClass::Digit, s) as int;
        let s1 = s.skip(n1);
        if spec_tag(s1, "-"@) is Some {
            let s2 = s1.skip(1);
            if spec_scan1(CharClass::Digit, s2) is Some {
                lemma_prefix_in_class(CharClass::Digit, s2);
            }
        }
    }
}

/// Parse one `start-end` range as its two digit runs.
fn range_pair<'a>(i: &'a str) -> (r: PRes<'a, (&'a str, &'a str)>)
    ensures
        match r {
            Ok((rest, v)) => ({
                let o = spec_range_pair(i@);
                o matches Some((srest, sv)) && srest == rest@ && sv.0 == v.0@ && sv.1 == v.1@
            }),
            Err(e) => spec_range_pair(i@) is None,
        },
{
    match scan1(i, CharClass::Digit, ErrorKind::Digit) {
        Err(e) => Err(e),
        Ok((s1, a)) => match expect_tag(s1, "-") {
            Err(e) => Err(e),
            Ok(s2) => match scan1(s2, CharClass::Digit, ErrorKind::Digit) {
                Err(e) => Err(e),
                Ok((rest, b)) => Ok((rest, (a, b))),
            },
        },
    }
}

/// The spec-level value of a vector of digit-run pairs.
pub open spec fn range_items_view(v: Seq<(&str, &str)>) -> Seq<(Seq<char>, Seq<char>)> {
    v.map_values(|p: (&str, &str)| (p.0@, p.1@))
}

/// The ranges after the first: `,` followed by one range, repeated.
pub open spec fn spec_range_list_more(s: Seq<char>, acc: Seq<(Seq<char>, Seq<char>)>) -> (
    Seq<char>,
    Seq<(Seq<char>, Seq<char>)>,
)
    decreases s.len(),
{
    match spec_tag(s, ","@) {
        None => (s, acc),
        Some(s1) => match spec_range_pair(s1) {
            None => (s, acc),
            Some((s2, p)) => if s2.len() < s.len() {
                spec_range_list_more(s2, acc.push(p))
            } else {
                (s, acc)
            },
        },
    }
}

/// A possibly empty list of ranges separated by commas.
pub open spec fn spec_range_list(s: Seq<char>) -> (Seq<char>, Seq<(Seq<char>, Seq<char>)>) {
    match spec_range_pair(s) {
        None => (s, Seq::empty()),
        Some((s1, p)) => spec_range_list_more(s1, seq![p]),
    }
}

/// Whether every range bound in the list fits a `u32`.
pub open spec fn ranges_fit(items: Seq<(Seq<char>, Seq<char>)>) -> bool {
    forall|j: int|
        0 <= j < items.len() ==> digits_val(#[trigger] items[j].0) <= u32::MAX && digits_val(
            items[j].1,
        ) <= u32::MAX
}

/// The numeric value of each range in the list.
pub open spec fn ranges_value(items: Seq<(Seq<char>, Seq<char>)>) -> Seq<(u32, u32)> {
    items.map_values(
        |p: (Seq<char>, Seq<char>)| (digits_val(p.0) as u32, digits_val(p.1) as u32),
    )
}

/// A list of index ranges, decoded as numbers.  A bound that does not fit a
/// `u32` is rejected.
pub open spec fn spec_emote_indexes(s: Seq<char>) -> Option<(Seq<char>, Seq<(u32, u32)>)> {
    let (rest, items) = spec_range_list(s);
    if ranges_fit(items) {
        Some((rest, ranges_value(items)))
    } else {
        None
    }
}

/// Both digit runs of a parsed range consist of digit characters.
pub proof fn lemma_range_pair_digits(s: Seq<char>)
    ensures
        spec_range_pair(s) matches Some((rest, v)) ==> all_digits(v.0) && all_digits(v.1),
{
    reveal_strlit("-");
    if spec_scan1(CharClass::Digit, s) is Some {
        lemma_scan1_chars_in_class(CharClass::Digit, s);
        lemma_prefix_in_class(CharClass::Digit, s);
        let n1 = class_prefix_len(CharClass::Digit, s) as int;
        let s1 = s.skip(n1);
        if spec_tag(s1, "-"@) is Some {
            let s2 = s1.skip(1);
            if spec_scan1(CharClass::Digit, s2) is Some {
                lemma_scan1_chars_in_class(CharClass::Digit, s2);
            }
        }
    }
}

/// Whether every character of `s` is a decimal digit.
pub open spec fn all_digits(s: Seq<char>) -> bool {
    forall|j: int| 0 <= j < s.len() ==> in_class(CharClass::Digit, #[trigger] s[j])
}

/// Whether both runs of every stored pair consist of digit characters.
pub open spec fn all_digit_pairs(items: Seq<(Seq<char>, Seq<char>)>) -> bool {
    forall|m: int| #![trigger items[m]]
        0 <= m < items.len() ==> all_digits(items[m].0) && all_digits(items[m].1)
}

/// The failure stack of an index-range list: a range bound that does not fit,
/// under the range-list context.
#[verifier::opaque]
pub open spec fn spec_emote_indexes_error(s: Seq<char>) -> Seq<(Seq<char>, ErrorKindV)> {
    seq![(s, ErrorKindV::MapRes), (s, ErrorKindV::Context(tags::EMOTE_INDEXES@))]
}

/// Parse a possibly empty comma-separated list of `start-end` ranges.
pub fn emote_indexes<'a>(i: &'a str) -> (r: PRes<'a, Vec<(u32, u32)>>)
    ensures
        match r {
            Ok((rest, v)) => spec_emote_indexes(i@) == Some((rest@, v@)),
            Err(e) => spec_emote_indexes(i@) is None && e@ =~= spec_emote_indexes_error(i@),
        },
{
    proof {
        reveal(spec_emote_indexes_error);
    }
    let mut items: Vec<(&'a str, &'a str)> = Vec::new();
    let mut cur: &'a str;
    match range_pair(i) {
        Err(_) => {
            assert(range_items_view(items@) =~= Seq::<(Seq<char>, Seq<char>)>::empty());
            cur = i;
        },
        Ok((s1, p)) => {
            proof {
                lemma_range_pair_digits(i@);
            }
            items.push(p);
            cur = s1;
            proof {
                assert(range_items_view(items@) =~= seq![(p.0@, p.1@)]);
            }
        },
    }
    if items.len() > 0 {
        loop
            invariant
                spec_range_list(i@) == spec_range_list_more(cur@, range_items_view(items@)),
                all_digit_pairs(range_items_view(items@)),
            ensures
                spec_range_list(i@) == (cur@, range_items_view(items@)),
                all_digit_pairs(range_items_view(items@)),
            decreases cur@.len(),
        {
            match expect_tag(cur, ",") {
                Err(_) => {
                    break;
                },
                Ok(s1) => match range_pair(s1) {
                    Err(_) => {
                        break;
                    },
                    Ok((s2, p)) => {
                        proof {
                            lemma_range_pair_consumes(s1@);
                            lemma_range_pair_digits(s1@);
                            assert(range_items_view(items@.push(p)) =~= range_items_view(
                                items@,
                            ).push((p.0@, p.1@)));
                        }
                        items.push(p);
                        cur = s2;
                    },
                },
            }
        }
    }
    // The scanned digit runs are now converted; a bound that does not fit a
    // `u32` rejects the whole list.
    let ghost spec_items = range_items_view(items@);
    assert(spec_range_list(i@) == (cur@, spec_items));
    assert(all_digit_pairs(spec_items));
    let mut out: Vec<(u32, u32)> = Vec::new();
    let mut j: usize = 0;
    let n = items.len();
    while j < n
        invariant
            0 <= j <= n,
            n == items.len(),
            spec_items == range_items_view(items@),
            spec_range_list(i@) == (cur@, spec_items),
            all_digit_pairs(spec_items),
            forall|m: int|
                0 <= m < j ==> digits_val(#[trigger] spec_items[m].0) <= u32::MAX && digits_val(
                    spec_items[m].1,
                ) <= u32::MAX,
            out@ == ranges_value(spec_items.take(j as int)),
        decreases n - j,
    {
        let (a, b) = items[j];
        proof {
            assert(spec_items.len() == items@.len());
            assert(0 <= j < spec_items.len());
            assert(spec_items[j as int] == (a@, b@));
            assert(all_digits(spec_items[j as int].0) && all_digits(spec_items[j as int].1));
            assert(all_digits(a@) && all_digits(b@));
        }
        let av = parse_u32(a);
        let bv = parse_u32(b);
        match (av, bv) {
            (Some(x), Some(y)) => {
                out.push((x, y));
                proof {
                    assert(ranges_value(spec_items.take(j + 1)) =~= ranges_value(
                        spec_items.take(j as int),
                    ).push((x, y)));
                }
            },
            _ => {
                proof {
                    reveal(spec_emote_indexes_error);
                    if ranges_fit(spec_items) {
                        assert(digits_val(spec_items[j as int].0) <= u32::MAX && digits_val(
                            spec_items[j as int].1,
                        ) <= u32::MAX);
                    }
                }
                assert(!ranges_fit(spec_items));
                return Err(
                    ParseError::leaf(i, ErrorKind::MapRes).context(i, tags::EMOTE_INDEXES),
                );
            },
        }
        j += 1;
    }
    proof {
        assert(spec_items.take(n as int) =~= spec_items);
        assert(ranges_fit(spec_items));
    }
    Ok((cur, out))
}


/// One emote: its id, `:`, and its index ranges.
pub open spec fn spec_single_emote(s: Seq<char>) -> Option<(Seq<char>, EmoteV)> {
    match spec_scan1(CharClass::Name, s) {
        None => None,
        Some((s1, emote_id)) => match spec_tag(s1, ":"@) {
            None => None,
            Some(s2) => match spec_emote_indexes(s2) {
                None => None,
                Some((rest, indexes)) => Some((rest, EmoteV { id: emote_id, indexes })),
            },
        },
    }
}

/// A successful emote parse consumes at least one character.
pub proof fn lemma_single_emote_consumes(s: Seq<char>)
    ensures
        spec_single_emote(s) matches Some((rest, v)) ==> rest.len() < s.len(),
{
    reveal_strlit(":");
    if spec_scan1(CharClass::Name, s) is Some {
        lemma_prefix_in_class(CharClass::Name, s);
        let n1 = class_prefix_len(CharClass::Name, s) as int;
        let s1 = s.skip(n1);
        if spec_tag(s1, ":"@) is Some {
            let s2 = s1.skip(1);
            lemma_range_list_shrinks(s2);
        }
    }
}

/// A range list never consumes more than its input.
proof fn lemma_range_list_shrinks(s: Seq<char>)
    ensures
        spec_range_list(s).0.len() <= s.len(),
{
    match spec_range_pair(s) {
        None => {},
        Some((s1, p)) => {
            lemma_range_pair_consumes(s);
            lemma_range_list_more_shrinks(s1, seq![p]);
        },
    }
}

proof fn lemma_range_list_more_shrinks(s: Seq<char>, acc: Seq<(Seq<char>, Seq<char>)>)
    ensures
        spec_range_list_more(s, acc).0.len() <= s.len(),
    decreases s.len(),
{
    match spec_tag(s, ","@) {
        None => {},
        Some(s1) => match spec_range_pair(s1) {
            None => {},
            Some((s2, p)) => {
                if s2.len() < s.len() {
                    lemma_range_list_more_shrinks(s2, acc.push(p));
                }
            },
        },
    }
}

/// The failure stack of one emote: a missing id, the missing `:`, or the
/// range list's failure, under the emote context.
#[verifier::opaque]
pub open spec fn spec_single_emote_error(s: Seq<char>) -> Seq<(Seq<char>, ErrorKindV)> {
    match spec_scan1(CharClass::Name, s) {
        None => seq![(s, ErrorKindV::AlphaNumeric), (s, ErrorKindV::Context(tags::EMOTE@))],
        Some((s1, _)) => match spec_tag(s1, ":"@) {
            None => seq![(s1, ErrorKindV::Tag), (s, ErrorKindV::Context(tags::EMOTE@))],
            Some(s2) => spec_emote_indexes_error(s2).push((s, ErrorKindV::Context(tags::EMOTE@))),
        },
    }
}

/// Parse one emote.
pub fn single_emote<'a>(i: &'a str) -> (r: PRes<'a, Emote<'a>>)
    ensures
        match r {
            Ok((rest, v)) => ({
                let o = spec_single_emote(i@);
                o matches Some((srest, sv)) && srest == rest@ && sv == v@
            }),
            Err(e) => spec_single_emote(i@) is None && e@ =~= spec_single_emote_error(i@),
        },
{
    proof {
        reveal(spec_single_emote_error);
    }
    match scan1(i, CharClass::Name, ErrorKind::AlphaNumeric) {
        Err(e) => Err(e.context(i, tags::EMOTE)),
        Ok((s1, emote_id)) => match expect_tag(s1, ":") {
            Err(e) => Err(e.context(i, tags::EMOTE)),
            Ok(s2) => match emote_indexes(s2) {
                Err(e) => Err(e.context(i, tags::EMOTE)),
                Ok((rest, indexes)) => Ok((rest, Emote { id: emote_id, indexes })),
            },
        },
    }
}

/// The spec-level value of an emote vector.
pub open spec fn emote_items_view(v: Seq<Emote>) -> Seq<EmoteV> {
    v.map_values(|e: Emote| e@)
}

/// The emotes after the first: `/` followed by one emote, repeated.
pub open spec fn spec_emote_list_more(s: Seq<char>, acc: Seq<EmoteV>) -> (Seq<char>, Seq<EmoteV>)
    decreases s.len(),
{
    match spec_tag(s, "/"@) {
        None => (s, acc),
        Some(s1) => match spec_single_emote(s1) {
            None => (s, acc),
            Some((s2, e)) => if s2.len() < s.len() {
                spec_emote_list_more(s2, acc.push(e))
            } else {
                (s, acc)
            },
        },
    }
}

/// A possibly empty list of emotes separated by slashes.
pub open spec fn spec_emote_list(s: Seq<char>) -> (Seq<char>, Seq<EmoteV>) {
    match spec_single_emote(s) {
        None => (s, Seq::empty()),
        Some((s1, e)) => spec_emote_list_more(s1, seq![e]),
    }
}

/// The `emotes` tag: `;emotes=` and a possibly empty emote list.
pub open spec fn spec_emotes(s: Seq<char>) -> Option<(Seq<char>, Seq<EmoteV>)> {
    match spec_field_intro(s, tags::EMOTES@) {
        None => None,
        Some(s1) => Some(spec_emote_list(s1)),
    }
}

/// Parse the `emotes` tag and its emote list.
pub fn emotes<'a>(i: &'a str) -> (r: PRes<'a, Vec<Emote<'a>>>)
    ensures
        match r {
            Ok((rest, v)) => ({
                let o = spec_emotes(i@);
                o matches Some((srest, sv)) && srest == rest@ && sv == emote_items_view(v@)
            }),
            Err(e) => spec_emotes(i@) is None && e@ =~= spec_intro_only_error(i@, tags::EMOTES@),
        },
{
    proof {
        reveal(spec_intro_only_error);
    }
    match field_intro(i, tags::EMOTES) {
        Err(e) => Err(e.context(i, tags::EMOTES)),
        Ok(s0) => {
            let mut items: Vec<Emote<'a>> = Vec::new();
            let mut cur: &'a str;
            match single_emote(s0) {
                Err(_) => {
                    assert(emote_items_view(items@) =~= Seq::<EmoteV>::empty());
                    return Ok((s0, items));
                },
                Ok((s1, e)) => {
                    cur = s1;
                    proof {
                        assert(emote_items_view(items@.push(e)) =~= seq![e@]);
                    }
                    items.push(e);
                },
            }
            loop
                invariant
                    spec_emote_list(s0@) == spec_emote_list_more(cur@, emote_items_view(items@)),
                    spec_emotes(i@) == Some(spec_emote_list(s0@)),
                decreases cur@.len(),
            {
                match expect_tag(cur, "/") {
                    Err(_) => {
                        return Ok((cur, items));
                    },
                    Ok(s1) => match single_emote(s1) {
                        Err(_) => {
                            return Ok((cur, items));
                        },
                        Ok((s2, e)) => {
                            proof {
                                lemma_single_emote_consumes(s1@);
                                assert(emote_items_view(items@.push(e)) =~= emote_items_view(
                                    items@,
                                ).push(e@));
                            }
                            items.push(e);
                            cur = s2;
                        },
                    },
                }
            }
        },
    }
}


/// A value that is observably absent, present but empty, or present with a
/// value.  The absent/empty distinction is part of the wire protocol and is
/// kept visible in the type.
#[derive(Debug, Clone, Copy, PartialEq, Eq)]
pub enum TriState<T> {
    Unset,
    SetEmpty,
    SetValue(T),
}

/// Collapse an optional field whose value is itself optional into a
/// [`TriState`].
pub open spec fn tri_of<T>(o: Option<Option<T>>) -> TriState<T> {
    match o {
        None => TriState::Unset,
        Some(None) => TriState::SetEmpty,
        Some(Some(v)) => TriState::SetValue(v),
    }
}

/// The spec-level value of an optional borrowed string.
pub open spec fn opt_str_view(o: Option<&str>) -> Option<Seq<char>> {
    match o {
        None => None,
        Some(v) => Some(v@),
    }
}

/// The spec-level value of a tri-state borrowed string.
pub open spec fn tri_str_view(t: TriState<&str>) -> TriState<Seq<char>> {
    match t {
        TriState::Unset => TriState::Unset,
        TriState::SetEmpty => TriState::SetEmpty,
        TriState::SetValue(v) => TriState::SetValue(v@),
    }
}

/// An optional parse step: on failure nothing is consumed and the value is
/// absent.
pub open spec fn opt_step<T>(o: Option<(Seq<char>, T)>, s: Seq<char>) -> (Seq<char>, Option<T>) {
    match o {
        Some((r, v)) => (r, Some(v)),
        None => (s, None),
    }
}

/// The tags identifying the original message a line replies to.  Each
/// sub-field is independently optional.
#[derive(Debug, PartialEq, Eq)]
pub struct Reply<'a> {
    pub display_name: Option<&'a str>,
    pub msg_body: Option<&'a str>,
    pub msg_id: Option<&'a str>,
    pub user_id: Option<u32>,
    pub user_login: Option<&'a str>,
}

/// The spec-level value of a [`Reply`].
pub ghost struct ReplyV {
    pub display_name: Option<Seq<char>>,
    pub msg_body: Option<Seq<char>>,
    pub msg_id: Option<Seq<char>>,
    pub user_id: Option<u32>,
    pub user_login: Option<Seq<char>>,
}

impl<'a> View for Reply<'a> {
    type V = ReplyV;

    open spec fn view(&self) -> ReplyV {
        ReplyV {
            display_name: opt_str_view(self.display_name),
            msg_body: opt_str_view(self.msg_body),
            msg_id: opt_str_view(self.msg_id),
            user_id: self.user_id,
            user_login: opt_str_view(self.user_login),
        }
    }
}

/// The reply-parent tag group: five independently optional tags.  The group
/// is present only when at least one of them is.
pub open spec fn spec_reply_group(s: Seq<char>) -> (Seq<char>, Option<ReplyV>) {
    let (s1, dn) = opt_step(spec_reply_parent_display_name(s), s);
    let (s2, body) = opt_step(spec_reply_parent_msg_body(s1), s1);
    let (s3, mid) = opt_step(spec_reply_parent_msg_id(s2), s2);
    let (s4, uid) = opt_step(spec_reply_parent_user_id(s3), s3);
    let (s5, login) = opt_step(spec_reply_parent_user_login(s4), s4);
    if dn is None && body is None && mid is None && uid is None && login is None {
        (s5, None)
    } else {
        (
            s5,
            Some(
                ReplyV {
                    display_name: dn,
                    msg_body: body,
                    msg_id: mid,
                    user_id: uid,
                    user_login: login,
                },
            ),
        )
    }
}

/// One structured record per chat line, built from the positional tags.
#[derive(Debug, PartialEq, Eq)]
pub struct MetaData<'a> {
    pub badge_info: Vec<(Badges, &'a str)>,
    pub badges: Vec<(Badges, &'a str)>,
    pub client_nonce: Option<&'a str>,
    pub bits: Option<u32>,
    pub color: TriState<(u8, u8, u8)>,
    pub display_name: Option<&'a str>,
    pub emote_only: Option<bool>,
    pub emotes: Vec<Emote<'a>>,
    pub first_msg: bool,
    pub flags: TriState<&'a str>,
    pub id: &'a str,
    pub moderator: bool,
    pub reply: Option<Reply<'a>>,
    pub room_id: u32,
    pub subscriber: bool,
    pub tmi_sent_ts: u64,
    pub turbo: bool,
    pub user_id: u32,
    pub user_type: Option<&'a str>,
}

/// The spec-level value of a [`MetaData`].
pub ghost struct MetaDataV {
    pub badge_info: Seq<(Badges, Seq<char>)>,
    pub badges: Seq<(Badges, Seq<char>)>,
    pub client_nonce: Option<Seq<char>>,
    pub bits: Option<u32>,
    pub color: TriState<(u8, u8, u8)>,
    pub display_name: Option<Seq<char>>,
    pub emote_only: Option<bool>,
    pub emotes: Seq<EmoteV>,
    pub first_msg: bool,
    pub flags: TriState<Seq<char>>,
    pub id: Seq<char>,
    pub moderator: bool,
    pub reply: Option<ReplyV>,
    pub room_id: u32,
    pub subscriber: bool,
    pub tmi_sent_ts: u64,
    pub turbo: bool,
    pub user_id: u32,
    pub user_type: Option<Seq<char>>,
}

impl<'a> View for MetaData<'a> {
    type V = MetaDataV;

    open spec fn view(&self) -> MetaDataV {
        MetaDataV {
            badge_info: badge_items_view(self.badge_info@),
            badges: badge_items_view(self.badges@),
            client_nonce: opt_str_view(self.client_nonce),
            bits: self.bits,
            color: self.color,
            display_name: opt_str_view(self.display_name),
            emote_only: self.emote_only,
            emotes: emote_items_view(self.emotes@),
            first_msg: self.first_msg,
            flags: tri_str_view(self.flags),
            id: self.id@,
            moderator: self.moderator,
            reply: match self.reply {
                None => None,
                Some(rp) => Some(rp@),
            },
            room_id: self.room_id,
            subscriber: self.subscriber,
            tmi_sent_ts: self.tmi_sent_ts,
            turbo: self.turbo,
            user_id: self.user_id,
            user_type: opt_str_view(self.user_type),
        }
    }
}

/// The first half of the tag section: `badge-info` through `mod`.
pub struct MetaHead<'a> {
    pub badge_info: Vec<(Badges, &'a str)>,
    pub badges: Vec<(Badges, &'a str)>,
    pub client_nonce: Option<&'a str>,
    pub bits: Option<u32>,
    pub color: TriState<(u8, u8, u8)>,
    pub display_name: Option<&'a str>,
    pub emote_only: Option<bool>,
    pub emotes: Vec<Emote<'a>>,
    pub first_msg: bool,
    pub flags: TriState<&'a str>,
    pub id: &'a str,
    pub moderator: bool,
}

/// The spec-level value of a [`MetaHead`].
pub ghost struct MetaHeadV {
    pub badge_info: Seq<(Badges, Seq<char>)>,
    pub badges: Seq<(Badges, Seq<char>)>,
    pub client_nonce: Option<Seq<char>>,
    pub bits: Option<u32>,
    pub color: TriState<(u8, u8, u8)>,
    pub display_name: Option<Seq<char>>,
    pub emote_only: Option<bool>,
    pub emotes: Seq<EmoteV>,
    pub first_msg: bool,
    pub flags: TriState<Seq<char>>,
    pub id: Seq<char>,
    pub moderator: bool,
}

impl<'a> View for MetaHead<'a> {
    type V = MetaHeadV;

    open spec fn view(&self) -> MetaHeadV {
        MetaHeadV {
            badge_info: badge_items_view(self.badge_info@),
            badges: badge_items_view(self.badges@),
            client_nonce: opt_str_view(self.client_nonce),
            bits: self.bits,
            color: self.color,
            display_name: opt_str_view(self.display_name),
            emote_only: self.emote_only,
            emotes: emote_items_view(self.emotes@),
            first_msg: self.first_msg,
            flags: tri_str_view(self.flags),
            id: self.id@,
            moderator: self.moderator,
        }
    }
}

/// The fields `badge-info` through `mod`, in emission order.
pub open spec fn spec_meta_head(s: Seq<char>) -> Option<(Seq<char>, MetaHeadV)> {
    match spec_badge_info(s) {
        None => None,
        Some((s1, badge_info_v)) => match spec_badges(s1) {
            None => None,
            Some((s2, badges_v)) => {
                let (s3, client_nonce_v) = opt_step(spec_client_nonce(s2), s2);
                let (s4, bits_v) = opt_step(spec_bits(s3), s3);
                let (s5, color_v) = opt_step(spec_color(s4), s4);
                match spec_display_name(s5) {
                    None => None,
                    Some((s6, display_name_v)) => {
                        let (s7, emote_only_v) = opt_step(spec_emote_only(s6), s6);
                        match spec_emotes(s7) {
                            None => None,
                            Some((s8, emotes_v)) => match spec_first_msg(s8) {
                                None => None,
                                Some((s9, first_msg_v)) => {
                                    let (s10, flags_v) = opt_step(spec_flags(s9), s9);
                                    match spec_id(s10) {
                                        None => None,
                                        Some((s11, id_v)) => match spec_moderator(s11) {
                                            None => None,
                                            Some((s12, moderator_v)) => Some(
                                                (
                                                    s12,
                                                    MetaHeadV {
                                                        badge_info: badge_info_v,
                                                        badges: badges_v,
                                                        client_nonce: client_nonce_v,
                                                        bits: bits_v,
                                                        color: tri_of(color_v),
                                                        display_name: display_name_v,
                                                        emote_only: emote_only_v,
                                                        emotes: emotes_v,
                                                        first_msg: first_msg_v,
                                                        flags: tri_of(flags_v),
                                                        id: id_v,
                                                        moderator: moderator_v,
                                                    },
                                                ),
                                            ),
                                        },
                                    }
                                },
                            },
                        }
                    },
                }
            },
        },
    }
}

/// Parse the fields `badge-info` through `mod`.
#[verifier::rlimit(100)]
fn meta_head<'a>(input: &'a str) -> (r: PRes<'a, MetaHead<'a>>)
    ensures
        match r {
            Ok((rest, h)) => ({
                let o = spec_meta_head(input@);
                o matches Some((srest, sv)) && srest == rest@ && sv == h@
            }),
            Err(e) => spec_meta_head(input@) is None && e@ =~= spec_meta_head_error(input@),
        },
{
    proof {
        reveal(spec_meta_head_error);
    }
    let (s1, badge_info_val) = match badge_info(input) {
        Ok(x) => x,
        Err(e) => return Err(e),
    };
    let (s2, badges_val) = match badges(s1) {
        Ok(x) => x,
        Err(e) => return Err(e),
    };
    let (s3, client_nonce_val) = match client_nonce(s2) {
        Ok((r, v)) => (r, Some(v)),
        Err(_) => (s2, None),
    };
    let (s4, bits_val) = match bits(s3) {
        Ok((r, v)) => (r, Some(v)),
        Err(_) => (s3, None),
    };
    let (s5, color_val) = match color(s4) {
        Ok((r, v)) => (
            r,
            match v {
                Some(c) => TriState::SetValue(c),
                None => TriState::SetEmpty,
            },
        ),
        Err(_) => (s4, TriState::Unset),
    };
    let (s6, display_name_val) = match display_name(s5) {
        Ok(x) => x,
        Err(e) => return Err(e),
    };
    let (s7, emote_only_val) = match emote_only(s6) {
        Ok((r, v)) => (r, Some(v)),
        Err(_) => (s6, None),
    };
    let (s8, emotes_val) = match emotes(s7) {
        Ok(x) => x,
        Err(e) => return Err(e),
    };
    let (s9, first_msg_val) = match first_msg(s8) {
        Ok(x) => x,
        Err(e) => return Err(e),
    };
    let (s10, flags_val) = match flags(s9) {
        Ok((r, v)) => (
            r,
            match v {
                Some(f) => TriState::SetValue(f),
                None => TriState::SetEmpty,
            },
        ),
        Err(_) => (s9, TriState::Unset),
    };
    let (s11, id_val) = match id(s10) {
        Ok(x) => x,
        Err(e) => return Err(e),
    };
    let (s12, moderator_val) = match moderator(s11) {
        Ok(x) => x,
        Err(e) => return Err(e),
    };
    Ok(
        (
            s12,
            MetaHead {
                badge_info: badge_info_val,
                badges: badges_val,
                client_nonce: client_nonce_val,
                bits: bits_val,
                color: color_val,
                display_name: display_name_val,
                emote_only: emote_only_val,
                emotes: emotes_val,
                first_msg: first_msg_val,
                flags: flags_val,
                id: id_val,
                moderator: moderator_val,
            },
        ),
    )
}

/// The second half of the tag section: the reply-parent group through
/// `user-type`.
pub struct MetaTail<'a> {
    pub reply: Option<Reply<'a>>,
    pub room_id: u32,
    pub subscriber: bool,
    pub tmi_sent_ts: u64,
    pub turbo: bool,
    pub user_id: u32,
    pub user_type: Option<&'a str>,
}

/// The spec-level value of a [`MetaTail`].
pub ghost struct MetaTailV {
    pub reply: Option<ReplyV>,
    pub room_id: u32,
    pub subscriber: bool,
    pub tmi_sent_ts: u64,
    pub turbo: bool,
    pub user_id: u32,
    pub user_type: Option<Seq<char>>,
}

impl<'a> View for MetaTail<'a> {
    type V = MetaTailV;

    open spec fn view(&self) -> MetaTailV {
        MetaTailV {
            reply: match self.reply {
                None => None,
                Some(rp) => Some(rp@),
            },
            room_id: self.room_id,
            subscriber: self.subscriber,
            tmi_sent_ts: self.tmi_sent_ts,
            turbo: self.turbo,
            user_id: self.user_id,
            user_type: opt_str_view(self.user_type),
        }
    }
}

/// The fields from the reply-parent group through `user-type`, in emission
/// order.
pub open spec fn spec_meta_tail(s: Seq<char>) -> Option<(Seq<char>, MetaTailV)> {
    let (s13, reply_v) = spec_reply_group(s);
    match spec_room_id(s13) {
        None => None,
        Some((s14, room_id_v)) => match spec_subscriber(s14) {
            None => None,
            Some((s15, subscriber_v)) => match spec_tmi_sent_ts(s15) {
                None => None,
                Some((s16, ts_v)) => match spec_turbo(s16) {
                    None => None,
                    Some((s17, turbo_v)) => match spec_user_id(s17) {
                        None => None,
                        Some((s18, user_id_v)) => {
                            let (s19, user_type_v) = opt_step(spec_user_type(s18), s18);
                            Some(
                                (
                                    s19,
                                    MetaTailV {
                                        reply: reply_v,
                                        room_id: room_id_v,
                                        subscriber: subscriber_v,
                                        tmi_sent_ts: ts_v,
                                        turbo: turbo_v,
                                        user_id: user_id_v,
                                        user_type: user_type_v,
                                    },
                                ),
                            )
                        },
                    },
                },
            },
        },
    }
}

/// Parse the fields from the reply-parent group through `user-type`.
#[verifier::rlimit(100)]
fn meta_tail<'a>(input: &'a str) -> (r: PRes<'a, MetaTail<'a>>)
    ensures
        match r {
            Ok((rest, t)) => ({
                let o = spec_meta_tail(input@);
                o matches Some((srest, sv)) && srest == rest@ && sv == t@
            }),
            Err(e) => spec_meta_tail(input@) is None && e@ =~= spec_meta_tail_error(input@),
        },
{
    proof {
        reveal(spec_meta_tail_error);
    }
    let (r1, reply_dn_val) = match reply_parent_display_name(input) {
        Ok((r, v)) => (r, Some(v)),
        Err(_) => (input, None),
    };
    let (r2, reply_body_val) = match reply_parent_msg_body(r1) {
        Ok((r, v)) => (r, Some(v)),
        Err(_) => (r1, None),
    };
    let (r3, reply_mid_val) = match reply_parent_msg_id(r2) {
        Ok((r, v)) => (r, Some(v)),
        Err(_) => (r2, None),
    };
    let (r4, reply_uid_val) = match reply_parent_user_id(r3) {
        Ok((r, v)) => (r, Some(v)),
        Err(_) => (r3, None),
    };
    let (s13, reply_login_val) = match reply_parent_user_login(r4) {
        Ok((r, v)) => (r, Some(v)),
        Err(_) => (r4, None),
    };
    let reply_val = if reply_dn_val.is_none() && reply_body_val.is_none()
        && reply_mid_val.is_none() && reply_uid_val.is_none() && reply_login_val.is_none() {
        None
    } else {
        Some(
            Reply {
                display_name: reply_dn_val,
                msg_body: reply_body_val,
                msg_id: reply_mid_val,
                user_id: reply_uid_val,
                user_login: reply_login_val,
            },
        )
    };
    let (s14, room_id_val) = match room_id(s13) {
        Ok(x) => x,
        Err(e) => return Err(e),
    };
    let (s15, subscriber_val) = match subscriber(s14) {
        Ok(x) => x,
        Err(e) => return Err(e),
    };
    let (s16, ts_val) = match tmi_sent_ts(s15) {
        Ok(x) => x,
        Err(e) => return Err(e),
    };
    let (s17, turbo_val) = match turbo(s16) {
        Ok(x) => x,
        Err(e) => return Err(e),
    };
    let (s18, user_id_val) = match user_id(s17) {
        Ok(x) => x,
        Err(e) => return Err(e),
    };
    let (s19, user_type_val) = match user_type(s18) {
        Ok((r, v)) => (r, Some(v)),
        Err(_) => (s18, None),
    };
    Ok(
        (
            s19,
            MetaTail {
                reply: reply_val,
                room_id: room_id_val,
                subscriber: subscriber_val,
                tmi_sent_ts: ts_val,
                turbo: turbo_val,
                user_id: user_id_val,
                user_type: user_type_val,
            },
        ),
    )
}

/// The failure stack of the first half: that of the first mandatory field the
/// input stops satisfying, the optional fields never failing.
#[verifier::opaque]
pub open spec fn spec_meta_head_error(s: Seq<char>) -> Seq<(Seq<char>, ErrorKindV)> {
    match spec_badge_info(s) {
        None => spec_badge_field_error(s, tags::BADGE_INFO@),
        Some((s1, _)) => match spec_badges(s1) {
            None => spec_badge_field_error(s1, tags::BADGES@),
            Some((s2, _)) => {
                let (s3, _) = opt_step(spec_client_nonce(s2), s2);
                let (s4, _) = opt_step(spec_bits(s3), s3);
                let (s5, _) = opt_step(spec_color(s4), s4);
                match spec_display_name(s5) {
                    None => spec_intro_only_error(s5, tags::DISPLAY_NAME@),
                    Some((s6, _)) => {
                        let (s7, _) = opt_step(spec_emote_only(s6), s6);
                        match spec_emotes(s7) {
                            None => spec_intro_only_error(s7, tags::EMOTES@),
                            Some((s8, _)) => match spec_first_msg(s8) {
                                None => spec_bool_field_error(s8, tags::FIRST_MSG@),
                                Some((s9, _)) => {
                                    let (s10, _) = opt_step(spec_flags(s9), s9);
                                    match spec_id(s10) {
                                        None => spec_class1_field_error(
                                            s10,
                                            tags::ID@,
                                            CharClass::Name,
                                        ),
                                        Some((s11, _)) => spec_bool_field_error(
                                            s11,
                                            tags::MODERATOR@,
                                        ),
                                    }
                                },
                            },
                        }
                    },
                }
            },
        },
    }
}

/// The failure stack of the second half: that of the first mandatory field
/// the input stops satisfying.
#[verifier::opaque]
pub open spec fn spec_meta_tail_error(s: Seq<char>) -> Seq<(Seq<char>, ErrorKindV)> {
    let (s13, _) = spec_reply_group(s);
    match spec_room_id(s13) {
        None => spec_u32_field_error(s13, tags::ROOM_ID@),
        Some((s14, _)) => match spec_subscriber(s14) {
            None => spec_bool_field_error(s14, tags::SUBSCRIBER@),
            Some((s15, _)) => match spec_tmi_sent_ts(s15) {
                None => spec_tmi_sent_ts_error(s15),
                Some((s16, _)) => match spec_turbo(s16) {
                    None => spec_bool_field_error(s16, tags::TURBO@),
                    Some((s17, _)) => spec_u32_field_error(s17, tags::USER_ID@),
                },
            },
        },
    }
}

/// The failure stack of the whole record: the failing field's stack, with the
/// record's own context on top.
#[verifier::opaque]
pub open spec fn spec_meta_data_error(s: Seq<char>) -> Seq<(Seq<char>, ErrorKindV)> {
    match spec_meta_head(s) {
        None => spec_meta_head_error(s).push((s, ErrorKindV::Context("MetaData"@))),
        Some((s1, _)) => spec_meta_tail_error(s1).push((s, ErrorKindV::Context("MetaData"@))),
    }
}

/// The record assembled from its two halves.
pub open spec fn meta_join(h: MetaHeadV, t: MetaTailV) -> MetaDataV {
    MetaDataV {
        badge_info: h.badge_info,
        badges: h.badges,
        client_nonce: h.client_nonce,
        bits: h.bits,
        color: h.color,
        display_name: h.display_name,
        emote_only: h.emote_only,
        emotes: h.emotes,
        first_msg: h.first_msg,
        flags: h.flags,
        id: h.id,
        moderator: h.moderator,
        reply: t.reply,
        room_id: t.room_id,
        subscriber: t.subscriber,
        tmi_sent_ts: t.tmi_sent_ts,
        turbo: t.turbo,
        user_id: t.user_id,
        user_type: t.user_type,
    }
}

/// The whole tag section, parsed positionally in the service's emission
/// order.
pub open spec fn spec_meta_data(s: Seq<char>) -> Option<(Seq<char>, MetaDataV)> {
    match spec_meta_head(s) {
        None => None,
        Some((s1, h)) => match spec_meta_tail(s1) {
            None => None,
            Some((s2, t)) => Some((s2, meta_join(h, t))),
        },
    }
}

impl<'a> MetaData<'a> {
    /// Parse the whole tag section of a line: every field in its fixed
    /// position, one forward pass.  On failure the error context names the
    /// record, above the context of the field that was being decoded.
    pub fn new(input: &'a str) -> (r: PRes<'a, MetaData<'a>>)
        ensures
            match r {
                Ok((rest, m)) => ({
                    let o = spec_meta_data(input@);
                    o matches Some((srest, sv)) && srest == rest@ && sv == m@
                }),
                Err(e) => spec_meta_data(input@) is None && e@ =~= spec_meta_data_error(input@),
            },
    {
        proof {
            reveal(spec_meta_data_error);
        }
        let (s1, h) = match meta_head(input) {
            Ok(x) => x,
            Err(e) => return Err(e.context(input, "MetaData")),
        };
        let (s2, t) = match meta_tail(s1) {
            Ok(x) => x,
            Err(e) => return Err(e.context(input, "MetaData")),
        };
        let MetaHead {
            badge_info,
            badges,
            client_nonce,
            bits,
            color,
            display_name,
            emote_only,
            emotes,
            first_msg,
            flags,
            id,
            moderator,
        } = h;
        let MetaTail { reply, room_id, subscriber, tmi_sent_ts, turbo, user_id, user_type } = t;
        Ok(
            (
                s2,
                MetaData {
                    badge_info,
                    badges,
                    client_nonce,
                    bits,
                    color,
                    display_name,
                    emote_only,
                    emotes,
                    first_msg,
                    flags,
                    id,
                    moderator,
                    reply,
                    room_id,
                    subscriber,
                    tmi_sent_ts,
                    turbo,
                    user_id,
                    user_type,
                },
            ),
        )
    }
}


/// Boolean tags decode by one rule: the digit run `0` gives false; any other
/// run of digits gives true.
pub proof fn lemma_bool_decoding(d: Seq<char>)
    requires
        d.len() >= 1,
        all_digits(d),
    ensures
        !bool_of_digits(d) <==> d =~= seq!['0'],
{
}

/// A badge name that is none of the well-known ones (ignoring ASCII case)
/// parses to `Badges::Unimplemented`; it is never a parse error.
pub proof fn lemma_unknown_badge(nm: Seq<char>)
    requires
        !crate::parser::lower_eq(nm, "admin"@),
        !crate::parser::lower_eq(nm, "bits"@),
        !crate::parser::lower_eq(nm, "broadcaster"@),
        !crate::parser::lower_eq(nm, "global_mod"@),
        !crate::parser::lower_eq(nm, "moderator"@),
        !crate::parser::lower_eq(nm, "subscriber"@),
        !crate::parser::lower_eq(nm, "staff"@),
        !crate::parser::lower_eq(nm, "turbo"@),
        !crate::parser::lower_eq(nm, "premium"@),
        !crate::parser::lower_eq(nm, "glitchcon2020"@),
        !crate::parser::lower_eq(nm, "sub-gifter"@),
    ensures
        spec_badge_of(nm) == Badges::Unimplemented,
{
}

/// The color field is tri-state: an absent tag gives `Unset`, a present tag
/// with an empty value gives `SetEmpty`, and a present tag with a six-digit
/// hex value gives the decoded `SetValue` — the three cases stay
/// distinguishable.
pub proof fn lemma_color_tristate(s: Seq<char>)
    ensures
        spec_color(s) is None ==> tri_of(opt_step(spec_color(s), s).1)
            == TriState::<(u8, u8, u8)>::Unset,
        spec_color(s) matches Some((r, v)) ==> tri_of(opt_step(spec_color(s), s).1) == (match v {
            None => TriState::<(u8, u8, u8)>::SetEmpty,
            Some(c) => TriState::SetValue(c),
        }),
{
}

} // verus!
