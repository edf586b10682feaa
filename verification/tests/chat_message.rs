use twitch_chat::parser::chat_message::{ChatMessage, destination, message, message_type, prefix};
use twitch_chat::parser::error::{ErrorKind, ParseError};
use twitch_chat::parser::meta_data::{
    Reply, TriState, badge_format, badge_info, badges, client_nonce, color, display_name,
    emote_indexes, emotes, hex_to_rgb, id, moderator, single_emote, subscriber, tmi_sent_ts,
    turbo,
};
use twitch_chat::parser::{Badges, Emote, MessageType};

#[test]
fn test_prefix() {
    assert_eq!(
        prefix(" :toerktumlare!toerktumlare@toerktumlare.tmi.twitch.tv"),
        Ok(("", "toerktumlare!toerktumlare@toerktumlare.tmi.twitch.tv"))
    );
}

#[test]
fn chat_message_test_prefix() {
    assert_eq!(
        prefix(" :toerktumlare!toerktumlare@toerktumlare.tmi.twitch.tv"),
        Ok(("", "toerktumlare!toerktumlare@toerktumlare.tmi.twitch.tv"))
    );
}

#[test]
fn should_give_correct_enum() {
    assert_eq!(MessageType::from("PRIVMSG"), MessageType::PrivMsg);
}

#[test]
fn mod_should_give_correct_enum() {
    assert_eq!(MessageType::from("PRIVMSG"), MessageType::PrivMsg);
}

#[test]
fn should_parse_privmsg_into_enum() {
    assert_eq!(
        message_type("PRIVMSG #toerktumlare: foobar"),
        Ok((" #toerktumlare: foobar", MessageType::PrivMsg))
    );
}

#[test]
fn unknown_command_keyword_is_carried_not_fatal() {
    assert_eq!(
        message_type("NOTICE #chan :hi"),
        Ok((" #chan :hi", MessageType::Other("NOTICE")))
    );
}

#[test]
fn test_destination_and_message() {
    assert_eq!(destination(" #toerktumlare :hello"), Ok((" :hello", "toerktumlare")));
    assert_eq!(message(" :hello :world"), Ok(("", "hello :world")));
}

#[test]
fn chat_message_test_badge_info() {
    assert_eq!(badge_info("badge-info="), Ok(("", vec![])));
    assert_eq!(
        badge_info("@badge-info=global_mod/1"),
        Ok(("", vec![(Badges::GlobalMod, "1")]))
    );
    assert_eq!(
        badge_info(";badge-info=admin/1,staff/1"),
        Ok(("", vec![(Badges::Admin, "1"), (Badges::Staff, "1")]))
    );
    assert_eq!(badge_info(";badge-info="), Ok(("", vec![])));
}

#[test]
fn chat_message_test_badge_format() {
    assert_eq!(badge_format("admin/1"), Ok(("", (Badges::Admin, "1"))));
    assert_eq!(badge_format("admin/A"), Ok(("", (Badges::Admin, "A"))));
    assert_eq!(
        badge_format("admin#1"),
        Err(ParseError {
            errors: vec![
                ("#1", ErrorKind::Tag),
                ("admin#1", ErrorKind::Context("badge-format"))
            ]
        })
    );
    assert_eq!(
        badge_format("foobar/1"),
        Ok(("", (Badges::Unimplemented, "1")))
    );
}

#[test]
fn chat_message_test_badges() {
    assert_eq!(
        badges("badges=admin/1"),
        Ok(("", vec![(Badges::Admin, "1")]))
    );
    assert_eq!(
        badges(";badges=admin/1,subscriber/2"),
        Ok(("", vec![(Badges::Admin, "1"), (Badges::Subscriber, "2")]))
    );
    assert_eq!(badges("badges="), Ok(("", vec![])));
}

#[test]
fn chat_message_test_hex_to_rgb() {
    assert_eq!(hex_to_rgb("#FFFFFF"), Ok(("", (255, 255, 255))));
    assert_eq!(
        hex_to_rgb("!FFFFFF"),
        Err(ParseError {
            errors: vec![
                ("!FFFFFF", ErrorKind::Tag),
                ("!FFFFFF", ErrorKind::Context("parse hex to rgb"))
            ]
        })
    );
    assert_eq!(
        hex_to_rgb("#HFFFFF"),
        Err(ParseError {
            errors: vec![
                ("HFFFFF", ErrorKind::OneOf),
                ("HFFFFF", ErrorKind::Many1),
                ("#HFFFFF", ErrorKind::Context("parse hex to rgb"))
            ]
        })
    );
}

#[test]
fn chat_message_test_color() {
    assert_eq!(color(";color=#FFFFFF"), Ok(("", Some((255, 255, 255)))));
    assert_eq!(color(";color="), Ok(("", None)));
    assert_eq!(
        color(";color#"),
        Err(ParseError {
            errors: vec![
                ("#", ErrorKind::Tag),
                (";color#", ErrorKind::Context("color"))
            ]
        })
    );
}

#[test]
fn chat_message_test_display_name() {
    assert_eq!(
        display_name(";display-name=toerktumlare"),
        Ok(("", Some("toerktumlare")))
    );
    assert_eq!(
        display_name(";display-name#toerktumlare"),
        Err(ParseError {
            errors: vec![
                ("#toerktumlare", ErrorKind::Tag),
                (";display-name#toerktumlare", ErrorKind::Context("display-name")),
            ]
        })
    );
}

#[test]
fn chat_message_test_emote_indexes() {
    assert_eq!(emote_indexes("0-4,12-16"), Ok(("", vec![(0, 4), (12, 16)])));
    assert_eq!(emote_indexes("0-4"), Ok(("", vec![(0, 4)])));
    assert_eq!(emote_indexes(""), Ok(("", vec![])));
}

#[test]
fn chat_message_test_emote() {
    assert_eq!(
        single_emote("25:0-4"),
        Ok((
            "",
            Emote {
                id: "25",
                indexes: vec![(0, 4)],
            }
        ))
    );
    assert_eq!(
        single_emote("25:0-4,12-16"),
        Ok((
            "",
            Emote {
                id: "25",
                indexes: vec![(0, 4), (12, 16)],
            }
        ))
    );
    assert_eq!(
        single_emote(":0-4"),
        Err(ParseError {
            errors: vec![
                (":0-4", ErrorKind::AlphaNumeric),
                (":0-4", ErrorKind::Context("emote"))
            ]
        })
    );
}

#[test]
fn chat_message_test_emotes() {
    assert_eq!(
        emotes(";emotes=25:0-4,12-16/1902:6-10"),
        Ok((
            "",
            vec![
                Emote {
                    id: "25",
                    indexes: vec![(0, 4), (12, 16)]
                },
                Emote {
                    id: "1902",
                    indexes: vec![(6, 10)]
                }
            ]
        ))
    );
    assert_eq!(
        emotes("=25:0-4,12-16/1902:6-10"),
        Err(ParseError {
            errors: vec![
                ("=25:0-4,12-16/1902:6-10", ErrorKind::Tag),
                ("=25:0-4,12-16/1902:6-10", ErrorKind::Context("emotes")),
            ]
        })
    );
}

#[test]
fn chat_message_test_id() {
    assert_eq!(
        id(";id=b34ccfc7-4977-403a-8a94-33c6bac34fb8"),
        Ok(("", "b34ccfc7-4977-403a-8a94-33c6bac34fb8"))
    );
    assert_eq!(
        id("=b34ccfc7-4977-403a-8a94-33c6bac34fb8"),
        Err(ParseError {
            errors: vec![
                ("=b34ccfc7-4977-403a-8a94-33c6bac34fb8", ErrorKind::Tag),
                (
                    "=b34ccfc7-4977-403a-8a94-33c6bac34fb8",
                    ErrorKind::Context("id")
                ),
            ]
        })
    );
}

#[test]
fn chat_message_test_mod() {
    assert_eq!(moderator(";mod=0"), Ok(("", false)));
    assert_eq!(moderator(";mod=1"), Ok(("", true)));
    assert_eq!(
        moderator("=0"),
        Err(ParseError {
            errors: vec![("=0", ErrorKind::Tag), ("=0", ErrorKind::Context("mod"))]
        })
    );
}

#[test]
fn chat_message_test_subscriber() {
    assert_eq!(subscriber(";subscriber=0"), Ok(("", false)));
    assert_eq!(subscriber(";subscriber=1"), Ok(("", true)));
    assert_eq!(
        subscriber("=0"),
        Err(ParseError {
            errors: vec![
                ("=0", ErrorKind::Tag),
                ("=0", ErrorKind::Context("subscriber"))
            ]
        })
    );
}

#[test]
fn chat_message_test_turbo() {
    assert_eq!(turbo(";turbo=0"), Ok(("", false)));
    assert_eq!(turbo(";turbo=1"), Ok(("", true)));
    assert_eq!(
        turbo("=0"),
        Err(ParseError {
            errors: vec![("=0", ErrorKind::Tag), ("=0", ErrorKind::Context("turbo"))]
        })
    );
}

#[test]
fn chat_message_test_client_nonce() {
    assert_eq!(
        client_nonce(";client-nonce=076d1c4a051be09a506e0ad9c26e6ea6"),
        Ok(("", "076d1c4a051be09a506e0ad9c26e6ea6"))
    );
    assert_eq!(
        client_nonce("=076"),
        Err(ParseError {
            errors: vec![
                ("=076", ErrorKind::Tag),
                ("=076", ErrorKind::Context("client-nonce")),
            ]
        })
    );
}

#[test]
fn chat_message_test_tmi_sent_ts() {
    assert_eq!(
        tmi_sent_ts(";tmi-sent-ts=1500000000"),
        Ok(("", 1500000000))
    );
}

#[test]
fn full_line_with_reply_group_parses_field_for_field() {
    let line = "@badge-info=;badges=;client-nonce=fd58b3d4628840dc10378c532c344ff8;color=;display-name=leprajon;emotes=;first-msg=0;flags=;id=d238119b-ebe3-41a7-b177-55d145402d0b;mod=0;reply-parent-display-name=Toerktumlare;reply-parent-msg-body=hello\\schat!;reply-parent-msg-id=9bf7210b-e249-4d32-a240-fc0a6bb762a8;reply-parent-user-id=47496925;reply-parent-user-login=toerktumlare;room-id=47496925;subscriber=0;tmi-sent-ts=1646864986812;turbo=0;user-id=149182416;user-type= :leprajon!leprajon@leprajon.tmi.twitch.tv PRIVMSG #toerktumlare :@Toerktumlare asd";
    let m = ChatMessage::parse(line).unwrap();
    assert_eq!(m.meta_data.badge_info, vec![]);
    assert_eq!(m.meta_data.badges, vec![]);
    assert_eq!(m.meta_data.client_nonce, Some("fd58b3d4628840dc10378c532c344ff8"));
    assert_eq!(m.meta_data.bits, None);
    assert_eq!(m.meta_data.color, TriState::SetEmpty);
    assert_eq!(m.meta_data.display_name, Some("leprajon"));
    assert_eq!(m.meta_data.emote_only, None);
    assert_eq!(m.meta_data.emotes, vec![]);
    assert!(!m.meta_data.first_msg);
    assert_eq!(m.meta_data.flags, TriState::SetEmpty);
    assert_eq!(m.meta_data.id, "d238119b-ebe3-41a7-b177-55d145402d0b");
    assert!(!m.meta_data.moderator);
    assert_eq!(
        m.meta_data.reply,
        Some(Reply {
            display_name: Some("Toerktumlare"),
            msg_body: Some("hello\\schat!"),
            msg_id: Some("9bf7210b-e249-4d32-a240-fc0a6bb762a8"),
            user_id: Some(47496925),
            user_login: Some("toerktumlare"),
        })
    );
    assert_eq!(m.meta_data.room_id, 47496925);
    assert!(!m.meta_data.subscriber);
    assert_eq!(m.meta_data.tmi_sent_ts, 1646864986);
    assert!(!m.meta_data.turbo);
    assert_eq!(m.meta_data.user_id, 149182416);
    assert_eq!(m.meta_data.user_type, Some(""));
    assert_eq!(m.prefix, "leprajon!leprajon@leprajon.tmi.twitch.tv");
    assert_eq!(m.message_type, MessageType::PrivMsg);
    assert_eq!(m.destination, "toerktumlare");
    assert_eq!(m.message, "@Toerktumlare asd");
}

#[test]
fn parsing_the_same_line_twice_is_deterministic() {
    let line = "@badge-info=;badges=admin/1;color=#FFFFFF;display-name=kirglow;emotes=25:0-4;first-msg=0;flags=;id=2f-7e;mod=1;room-id=4749;subscriber=0;tmi-sent-ts=1500000000;turbo=0;user-id=60;user-type= :kirglow!kirglow@kirglow.tmi.twitch.tv PRIVMSG #somewhere :Kappa hi";
    let first = ChatMessage::parse(line);
    let second = ChatMessage::parse(line);
    assert_eq!(first, second);
    assert!(first.is_ok());
}

#[test]
fn missing_id_tag_names_id_in_the_error_context() {
    let line = "@badge-info=;badges=;color=;display-name=leprajon;emotes=;first-msg=0;flags=;mod=0;room-id=4749;subscriber=0;tmi-sent-ts=1500000000;turbo=0;user-id=60;user-type= :x!y@z PRIVMSG #chan :hi";
    let err = ChatMessage::parse(line).unwrap_err();
    assert!(err.mentions("id"));
    assert!(err.mentions("MetaData"));
    // The full chain: the literal that stopped matching, the failing field's
    // context, the record's context — each with the input remaining there.
    assert_eq!(err.errors.len(), 3);
    assert_eq!(err.errors[0].1, ErrorKind::Tag);
    assert!(err.errors[0].0.starts_with("mod=0"));
    assert_eq!(err.errors[1].1, ErrorKind::Context("id"));
    assert!(err.errors[1].0.starts_with(";mod=0"));
    assert_eq!(err.errors[2], (line, ErrorKind::Context("MetaData")));
    // The raw line is untouched and still available for fallback display.
    assert!(line.starts_with("@badge-info"));
}
