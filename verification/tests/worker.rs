use twitch_chat::twitch_chat::{ChatEvent, Classification, TwitchChat, classify, process_line};
use twitch_chat::twitch_client::{
    CAP_REQUEST, CLOSED_NOTICE, Message, PING_PROBE, PONG_REPLY, SocketEvent, WorkerAction,
    contains_sub, control_step, handshake_lines, is_ping, worker_step,
};

#[test]
fn ping_probe_gets_exactly_one_pong_and_no_event() {
    let action = worker_step(SocketEvent::Line(PING_PROBE.to_string()));
    assert_eq!(action, WorkerAction::SendPong);
}

#[test]
fn ping_probe_embedded_in_a_line_is_still_answered() {
    let action = worker_step(SocketEvent::Line(format!(":tmi.twitch.tv {}", PING_PROBE)));
    assert_eq!(action, WorkerAction::SendPong);
    assert_eq!(PONG_REPLY, "PONG :tmi.twitch.tv");
}

#[test]
fn ordinary_lines_are_forwarded_verbatim() {
    let line = ":someone PRIVMSG #chan :hello".to_string();
    let action = worker_step(SocketEvent::Line(line.clone()));
    assert_eq!(action, WorkerAction::Forward(line));
}

#[test]
fn would_block_is_not_an_error() {
    assert_eq!(worker_step(SocketEvent::WouldBlock), WorkerAction::Ignore);
}

#[test]
fn connection_closed_ends_the_loop_and_tells_the_consumer() {
    assert_eq!(
        worker_step(SocketEvent::Closed),
        WorkerAction::Stop(CLOSED_NOTICE.to_string())
    );
    // The notice reaches the consumer as an informational event, never as a
    // chat candidate.
    match process_line(CLOSED_NOTICE) {
        ChatEvent::Info(t) => assert_eq!(t, CLOSED_NOTICE),
        _ => panic!("expected an informational event"),
    }
}

#[test]
fn other_transport_errors_are_reported_and_survived() {
    let action = worker_step(SocketEvent::TransportError("protocol violation".to_string()));
    assert_eq!(
        action,
        WorkerAction::Report("protocol violation".to_string())
    );
}

#[test]
fn terminate_on_the_control_channel_closes_the_transport() {
    assert!(control_step(Some(&Message::Terminate)));
    assert!(!control_step(Some(&Message::Text("hi".to_string()))));
    assert!(!control_step(None));
}

#[test]
fn handshake_lines_come_in_the_documented_order() {
    let lines = handshake_lines("s3cret", "somechannel", "somebot");
    assert_eq!(lines.len(), 4);
    assert_eq!(lines[0], "PASS oauth:s3cret");
    assert_eq!(lines[1], "NICK somebot");
    assert_eq!(lines[2], "JOIN #somechannel");
    assert_eq!(lines[3], CAP_REQUEST);
    assert_eq!(lines[3], "CAP REQ :twitch.tv/tags");
}

#[test]
fn is_ping_is_a_substring_test() {
    assert!(is_ping(PING_PROBE));
    assert!(is_ping("xxPING :tmi.twitch.tvyy"));
    assert!(!is_ping("PONG :tmi.twitch.tv"));
    assert!(contains_sub("hello world", "lo wo"));
    assert!(!contains_sub("hello world", "low"));
}

#[test]
fn classify_needs_the_chat_command_keyword() {
    assert_eq!(classify(":x PRIVMSG #c :hi"), Classification::Chat);
    assert_eq!(classify(":tmi.twitch.tv 376 bot :>"), Classification::Informational);
}

#[test]
fn informational_lines_pass_through_verbatim() {
    let line = ":tmi.twitch.tv CAP * ACK :twitch.tv/tags";
    match process_line(line) {
        ChatEvent::Info(t) => assert_eq!(t, line),
        _ => panic!("expected an informational event"),
    }
}

#[test]
fn malformed_chat_candidate_degrades_to_an_error_event() {
    let line = "@garbage PRIVMSG #chan :hi";
    match process_line(line) {
        ChatEvent::Error(t, e) => {
            assert_eq!(t, line);
            assert!(e.errors.len() >= 1);
        },
        _ => panic!("expected an error event"),
    }
}

#[test]
fn well_formed_chat_candidate_becomes_a_chat_event() {
    let line = "@badge-info=;badges=;color=;display-name=kirglow;emotes=;first-msg=0;flags=;id=2f-7e;mod=0;room-id=4749;subscriber=0;tmi-sent-ts=1500000000;turbo=0;user-id=60;user-type= :kirglow!kirglow@kirglow.tmi.twitch.tv PRIVMSG #somewhere :hi there";
    match process_line(line) {
        ChatEvent::Chat(m) => {
            assert_eq!(m.message, "hi there");
            assert_eq!(m.destination, "somewhere");
        },
        _ => panic!("expected a chat event"),
    }
}

#[test]
fn twitch_chat_remembers_its_parameters() {
    let tc = TwitchChat::new(
        "bot".to_string(),
        "chan".to_string(),
        "tok".to_string(),
    );
    assert_eq!(tc.nick, "bot");
    assert_eq!(tc.channel, "chan");
    assert_eq!(tc.token, "tok");
}
