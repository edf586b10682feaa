use twitch_chat::arg_parser;
use twitch_chat::color_holder::ColorCache;
use twitch_chat::parser::meta_data::{MetaData, TriState};
use twitch_chat::parser::Badges;

#[test]
fn color_cache_hands_back_the_same_color_for_a_user() {
    let mut cache = ColorCache::new();
    let first = cache.get("toerktumlare");
    let again = cache.get("toerktumlare");
    assert_eq!(first, again);
}

#[test]
fn color_cache_keeps_users_apart() {
    let mut cache = ColorCache::new();
    let a = cache.get("usera");
    let b = cache.get("userb");
    let a2 = cache.get("usera");
    let b2 = cache.get("userb");
    assert_eq!(a, a2);
    assert_eq!(b, b2);
}

#[test]
fn arg_parser_recognizes_nick_and_channel() {
    let args: Vec<String> = vec![
        "twitch-chat".to_string(),
        "--nick=foobar".to_string(),
        "--channel=flubber".to_string(),
        "--log".to_string(),
    ];
    let map = arg_parser::parse(&args);
    assert_eq!(map.get("nick"), Some("foobar"));
    assert_eq!(map.get("channel"), Some("flubber"));
    assert_eq!(map.get("logging"), Some("true"));
    assert_eq!(map.get("log_level"), None);
}

#[test]
fn arg_parser_later_flag_wins() {
    let args: Vec<String> = vec!["--info".to_string(), "--debug".to_string()];
    let map = arg_parser::parse(&args);
    assert_eq!(map.get("log_level"), Some("debug"));
    assert_eq!(map.get("debug"), Some("true"));
}

#[test]
fn badge_names_match_ignoring_ascii_case() {
    assert_eq!(Badges::from("ADMIN"), Badges::Admin);
    assert_eq!(Badges::from("Broadcaster"), Badges::Broadcaster);
    assert_eq!(Badges::from("sub-gifter"), Badges::SubGifter);
    assert_eq!(Badges::from("glitchcon2020"), Badges::GlitchCon2020);
    assert_eq!(Badges::from("somethingelse"), Badges::Unimplemented);
}

#[test]
fn color_is_tri_state_across_whole_records() {
    let absent = "@badge-info=;badges=;display-name=kirglow;emotes=;first-msg=0;flags=;id=2f-7e;mod=0;room-id=4749;subscriber=0;tmi-sent-ts=1500000000;turbo=0;user-id=60;user-type=";
    let (_, m) = MetaData::new(absent).unwrap();
    assert_eq!(m.color, TriState::Unset);

    let empty = "@badge-info=;badges=;color=;display-name=kirglow;emotes=;first-msg=0;flags=;id=2f-7e;mod=0;room-id=4749;subscriber=0;tmi-sent-ts=1500000000;turbo=0;user-id=60;user-type=";
    let (_, m) = MetaData::new(empty).unwrap();
    assert_eq!(m.color, TriState::SetEmpty);

    let set = "@badge-info=;badges=;color=#FFFFFF;display-name=kirglow;emotes=;first-msg=0;flags=;id=2f-7e;mod=0;room-id=4749;subscriber=0;tmi-sent-ts=1500000000;turbo=0;user-id=60;user-type=";
    let (_, m) = MetaData::new(set).unwrap();
    assert_eq!(m.color, TriState::SetValue((255, 255, 255)));
}

#[test]
fn hex_color_decodes_each_channel() {
    let set = "@badge-info=;badges=;color=#19A2FF;display-name=kirglow;emotes=;first-msg=0;flags=;id=2f-7e;mod=0;room-id=4749;subscriber=0;tmi-sent-ts=1500000000;turbo=0;user-id=60;user-type=";
    let (rest, m) = MetaData::new(set).unwrap();
    assert_eq!(m.color, TriState::SetValue((25, 162, 255)));
    assert_eq!(rest, "");
}
