use twitch_chat::parser::error::{ErrorKind, ParseError};
use twitch_chat::parser::meta_data::{
    MetaData, Reply, TriState, badge_format, badge_info, badges, bits, client_nonce, color,
    display_name, emote_indexes, emote_only, emotes, flags, hex_to_rgb, id, moderator,
    reply_parent_display_name, reply_parent_msg_body, reply_parent_msg_id, reply_parent_user_id,
    reply_parent_user_login, single_emote, subscriber, tmi_sent_ts, turbo, user_type,
};
use twitch_chat::parser::{Badges, Emote};

#[test]
fn parse_reply_message_meta_data() {
    let meta_data_string = "@badge-info=;badges=;client-nonce=abc123;color=#FFFFFF;display-name=kirglow;emotes=;first-msg=0;flags=;id=2f-7e;mod=0;reply-parent-display-name=Toerktumlare;reply-parent-msg-body=take\\s2;reply-parent-msg-id=87-f3;reply-parent-user-id=4749;reply-parent-user-login=toerktumlare;room-id=4749;subscriber=0;tmi-sent-ts=1500000000;turbo=0;user-id=60;user-type=";
    let meta_data = MetaData {
        badge_info: vec![],
        badges: vec![],
        client_nonce: Some("abc123"),
        bits: None,
        color: TriState::SetValue((255, 255, 255)),
        display_name: Some("kirglow"),
        emote_only: None,
        emotes: vec![],
        first_msg: false,
        flags: TriState::SetEmpty,
        id: "2f-7e",
        moderator: false,
        reply: Some(Reply {
            display_name: Some("Toerktumlare"),
            msg_body: Some("take\\s2"),
            msg_id: Some("87-f3"),
            user_id: Some(4749),
            user_login: Some("toerktumlare"),
        }),
        room_id: 4749,
        subscriber: false,
        tmi_sent_ts: 1500000000,
        turbo: false,
        user_id: 60,
        user_type: Some(""),
    };

    assert_eq!(MetaData::new(meta_data_string), Ok(("", meta_data)));
}

#[test]
fn test_reply_parent_display_name() {
    assert_eq!(
        reply_parent_display_name(";reply-parent-display-name=Toerktumlare"),
        Ok(("", "Toerktumlare"))
    );
}

#[test]
fn test_reply_parent_msg_body() {
    assert_eq!(
        reply_parent_msg_body(";reply-parent-msg-body=hello\\schat!"),
        Ok(("", "hello\\schat!"))
    );
}

#[test]
fn test_reply_parent_msg_id() {
    assert_eq!(
        reply_parent_msg_id(";reply-parent-msg-id=9bf7210b-e249-4d32-a240-fc0a6bb762a8h"),
        Ok(("", "9bf7210b-e249-4d32-a240-fc0a6bb762a8h"))
    );
}

#[test]
fn test_reply_parent_user_id() {
    assert_eq!(
        reply_parent_user_id(";reply-parent-user-id=47496925"),
        Ok(("", 47496925))
    );
}

#[test]
fn test_reply_parent_user_login() {
    assert_eq!(
        reply_parent_user_login(";reply-parent-user-login=toerktumlare"),
        Ok(("", "toerktumlare"))
    );
}

#[test]
fn meta_data_test_badge_info() {
    assert_eq!(badge_info("badge-info="), Ok(("", vec![])));
    assert_eq!(
        badge_info("@badge-info=global_mod/1"),
        Ok(("", vec![(Badges::GlobalMod, "1")]))
    );
    assert_eq!(
        badge_info(";badge-info=admin/1,staff/1"),
        Ok(("", vec![(Badges::Admin, "1"), (Badges::Staff, "1")]))
    );
    assert_eq!(badge_info(";badge-info="), Ok(("", vec![])));
}

#[test]
fn meta_data_test_badge_format() {
    assert_eq!(badge_format("admin/1"), Ok(("", (Badges::Admin, "1"))));
    assert_eq!(badge_format("admin/A"), Ok(("", (Badges::Admin, "A"))));
    assert_eq!(
        badge_format("admin#1"),
        Err(ParseError {
            errors: vec![
                ("#1", ErrorKind::Tag),
                ("admin#1", ErrorKind::Context("badge-format"))
            ]
        })
    );
    assert_eq!(
        badge_format("foobar/1"),
        Ok(("", (Badges::Unimplemented, "1")))
    );
}

#[test]
fn meta_data_test_badges() {
    assert_eq!(
        badges("badges=admin/1"),
        Ok(("", vec![(Badges::Admin, "1")]))
    );
    assert_eq!(
        badges(";badges=admin/1,subscriber/2"),
        Ok(("", vec![(Badges::Admin, "1"), (Badges::Subscriber, "2")]))
    );
    assert_eq!(
        badges("badges=admin/1"),
        Ok(("", vec![(Badges::Admin, "1")]))
    );
    assert_eq!(badges("badges="), Ok(("", vec![])));
}

#[test]
fn meta_data_test_hex_to_rgb() {
    assert_eq!(hex_to_rgb("#FFFFFF"), Ok(("", (255, 255, 255))));
    assert_eq!(
        hex_to_rgb("!FFFFFF"),
        Err(ParseError {
            errors: vec![
                ("!FFFFFF", ErrorKind::Tag),
                ("!FFFFFF", ErrorKind::Context("parse hex to rgb"))
            ]
        })
    );
    assert_eq!(
        hex_to_rgb("#HFFFFF"),
        Err(ParseError {
            errors: vec![
                ("HFFFFF", ErrorKind::OneOf),
                ("HFFFFF", ErrorKind::Many1),
                ("#HFFFFF", ErrorKind::Context("parse hex to rgb"))
            ]
        })
    );
}

#[test]
fn meta_data_test_color() {
    assert_eq!(color(";color=#FFFFFF"), Ok(("", Some((255, 255, 255)))));
    assert_eq!(color(";color="), Ok(("", None)));
    assert_eq!(
        color(";color#"),
        Err(ParseError {
            errors: vec![
                ("#", ErrorKind::Tag),
                (";color#", ErrorKind::Context("color"))
            ]
        })
    );
}

#[test]
fn meta_data_test_display_name() {
    assert_eq!(
        display_name(";display-name=toerktumlare"),
        Ok(("", Some("toerktumlare")))
    );
    assert_eq!(
        display_name(";display-name#toerktumlare"),
        Err(ParseError {
            errors: vec![
                ("#toerktumlare", ErrorKind::Tag),
                (";display-name#toerktumlare", ErrorKind::Context("display-name")),
            ]
        })
    );
}

#[test]
fn meta_data_test_emote_indexes() {
    assert_eq!(emote_indexes("0-4,12-16"), Ok(("", vec![(0, 4), (12, 16)])));
    assert_eq!(emote_indexes("0-4"), Ok(("", vec![(0, 4)])));
    assert_eq!(emote_indexes(""), Ok(("", vec![])));
}

#[test]
fn meta_data_test_emote() {
    assert_eq!(
        single_emote("25:0-4"),
        Ok((
            "",
            Emote {
                id: "25",
                indexes: vec![(0, 4)],
            }
        ))
    );
    assert_eq!(
        single_emote("25:0-4,12-16"),
        Ok((
            "",
            Emote {
                id: "25",
                indexes: vec![(0, 4), (12, 16)],
            }
        ))
    );
    assert_eq!(
        single_emote(":0-4"),
        Err(ParseError {
            errors: vec![
                (":0-4", ErrorKind::AlphaNumeric),
                (":0-4", ErrorKind::Context("emote"))
            ]
        })
    );
}

#[test]
fn meta_data_test_emotes() {
    assert_eq!(
        emotes(";emotes=25:0-4,12-16/1902:6-10"),
        Ok((
            "",
            vec![
                Emote {
                    id: "25",
                    indexes: vec![(0, 4), (12, 16)]
                },
                Emote {
                    id: "1902",
                    indexes: vec![(6, 10)]
                }
            ]
        ))
    );
    assert_eq!(
        emotes("=25:0-4,12-16/1902:6-10"),
        Err(ParseError {
            errors: vec![
                ("=25:0-4,12-16/1902:6-10", ErrorKind::Tag),
                ("=25:0-4,12-16/1902:6-10", ErrorKind::Context("emotes")),
            ]
        })
    );
}

#[test]
fn meta_data_test_id() {
    assert_eq!(
        id(";id=b34ccfc7-4977-403a-8a94-33c6bac34fb8"),
        Ok(("", "b34ccfc7-4977-403a-8a94-33c6bac34fb8"))
    );
    assert_eq!(
        id("=b34ccfc7-4977-403a-8a94-33c6bac34fb8"),
        Err(ParseError {
            errors: vec![
                ("=b34ccfc7-4977-403a-8a94-33c6bac34fb8", ErrorKind::Tag),
                (
                    "=b34ccfc7-4977-403a-8a94-33c6bac34fb8",
                    ErrorKind::Context("id")
                ),
            ]
        })
    );
}

#[test]
fn meta_data_test_mod() {
    assert_eq!(moderator(";mod=0"), Ok(("", false)));
    assert_eq!(moderator(";mod=1"), Ok(("", true)));
    assert_eq!(
        moderator("=0"),
        Err(ParseError {
            errors: vec![("=0", ErrorKind::Tag), ("=0", ErrorKind::Context("mod"))]
        })
    );
}

#[test]
fn meta_data_test_subscriber() {
    assert_eq!(subscriber(";subscriber=0"), Ok(("", false)));
    assert_eq!(subscriber(";subscriber=1"), Ok(("", true)));
    assert_eq!(
        subscriber("=0"),
        Err(ParseError {
            errors: vec![
                ("=0", ErrorKind::Tag),
                ("=0", ErrorKind::Context("subscriber"))
            ]
        })
    );
}

#[test]
fn meta_data_test_turbo() {
    assert_eq!(turbo(";turbo=0"), Ok(("", false)));
    assert_eq!(turbo(";turbo=1"), Ok(("", true)));
    assert_eq!(
        turbo("=0"),
        Err(ParseError {
            errors: vec![("=0", ErrorKind::Tag), ("=0", ErrorKind::Context("turbo"))]
        })
    );
}

#[test]
fn meta_data_test_client_nonce() {
    assert_eq!(
        client_nonce(";client-nonce=076d1c4a051be09a506e0ad9c26e6ea6"),
        Ok(("", "076d1c4a051be09a506e0ad9c26e6ea6"))
    );
    assert_eq!(
        client_nonce("=076"),
        Err(ParseError {
            errors: vec![
                ("=076", ErrorKind::Tag),
                ("=076", ErrorKind::Context("client-nonce")),
            ]
        })
    );
}

#[test]
fn meta_data_test_tmi_sent_ts() {
    assert_eq!(
        tmi_sent_ts(";tmi-sent-ts=1500000000"),
        Ok(("", 1500000000))
    );
}

#[test]
fn bits_rejects_a_value_that_does_not_fit() {
    let r = bits(";bits=99999999999999");
    let e = r.unwrap_err();
    assert_eq!(e.errors.last().unwrap(), &(";bits=99999999999999", ErrorKind::Context("bits")));
    assert!(e.errors.contains(&("", ErrorKind::MapRes)));
}

#[test]
fn boolean_tags_decode_zero_as_false_and_any_other_digits_as_true() {
    assert_eq!(moderator(";mod=0"), Ok(("", false)));
    assert_eq!(moderator(";mod=1"), Ok(("", true)));
    assert_eq!(moderator(";mod=25"), Ok(("", true)));
    assert_eq!(turbo(";turbo=7"), Ok(("", true)));
    let e = moderator(";mod=x").unwrap_err();
    assert!(e.mentions("mod"));
}

#[test]
fn tmi_sent_ts_needs_ten_digits_and_takes_only_ten() {
    assert_eq!(
        tmi_sent_ts(";tmi-sent-ts=1646864986812"),
        Ok(("", 1646864986))
    );
    let e = tmi_sent_ts(";tmi-sent-ts=123").unwrap_err();
    assert!(e.mentions("tmi-sent-ts"));
}

#[test]
fn user_type_value_may_be_empty() {
    assert_eq!(user_type(";user-type="), Ok(("", "")));
    assert_eq!(user_type(";user-type=admin"), Ok(("", "admin")));
}

#[test]
fn emote_only_and_flags_values_carry_through() {
    assert_eq!(emote_only(";emote-only=1"), Ok(("", true)));
    assert_eq!(emote_only(";emote-only=0"), Ok(("", false)));
    assert_eq!(flags(";flags=0-4:A.3"), Ok(("", Some("0-4:A.3"))));
    assert_eq!(flags(";flags="), Ok(("", None)));
}

#[test]
fn full_record_with_bits_and_emote_only() {
    let line = "@badge-info=;badges=;bits=100;color=;display-name=kirglow;emote-only=1;emotes=25:0-4;first-msg=1;flags=;id=2f-7e;mod=1;room-id=4749;subscriber=1;tmi-sent-ts=1500000000;turbo=1;user-id=60;user-type=";
    let (rest, m) = MetaData::new(line).unwrap();
    assert_eq!(rest, "");
    assert_eq!(m.bits, Some(100));
    assert_eq!(m.emote_only, Some(true));
    assert!(m.first_msg && m.moderator && m.subscriber && m.turbo);
    assert_eq!(m.reply, None);
    assert_eq!(m.emotes.len(), 1);
    assert_eq!(m.emotes[0].id, "25");
}
