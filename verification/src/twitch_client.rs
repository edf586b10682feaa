//! The connection worker's decision logic: the handshake lines, the keepalive
//! answer, and the classification of every transport outcome into the action
//! the receive loop takes next.
//!
//! The worker itself owns the transport and a thread; here stands everything
//! it decides, as pure functions from what was read to what to do, so that
//! the loop around them only performs actions.
use vstd::prelude::*;

verus! {

/// The service's keepalive probe.  A line containing it must be answered
/// with [`PONG_REPLY`] and never forwarded.
pub const PING_PROBE: &'static str = "PING :tmi.twitch.tv";

/// The reply this client owes for each keepalive probe.
pub const PONG_REPLY: &'static str = "PONG :tmi.twitch.tv";

/// The capability request for tag support, sent last in the handshake.
pub const CAP_REQUEST: &'static str = "CAP REQ :twitch.tv/tags";

/// The notice forwarded to the consumer when the transport reports the
/// connection closed, so the condition surfaces as an informational event
/// rather than a silent disconnect.
pub const CLOSED_NOTICE: &'static str = "connection closed";

/// Whether `t` occurs in `s` starting at position `k`.
pub open spec fn contains_at(s: Seq<char>, t: Seq<char>, k: int) -> bool {
    0 <= k && k + t.len() <= s.len() && s.subrange(k, k + t.len()) == t
}

/// Whether `t` occurs anywhere in `s`.
pub open spec fn spec_contains(s: Seq<char>, t: Seq<char>) -> bool {
    exists|k: int| contains_at(s, t, k)
}

/// Whether the string `t` occurs as a substring of `s`.
pub fn contains_sub(s: &str, t: &str) -> (r: bool)
    ensures
        r == spec_contains(s@, t@),
{
    let slen = s.unicode_len();
    let tlen = t.unicode_len();
    if tlen > slen {
        return false;
    }
    let mut k: usize = 0;
    while k <= slen - tlen
        invariant
            0 <= k <= slen - tlen + 1,
            tlen <= slen,
            slen == s@.len(),
            tlen == t@.len(),
            forall|kk: int| 0 <= kk < k ==> !contains_at(s@, t@, kk),
        decreases slen - tlen - k + 1,
    {
        let tail = s.substring_char(k, slen);
        proof {
            assert(tail@ =~= s@.subrange(k as int, slen as int));
        }
        match crate::parser::scan::expect_tag(tail, t) {
            Ok(_) => {
                proof {
                    assert(s@.subrange(k as int, k + tlen) =~= tail@.take(tlen as int));
                    assert(contains_at(s@, t@, k as int));
                }
                return true;
            },
            Err(_) => {
                proof {
                    assert(s@.subrange(k as int, k + tlen) =~= tail@.take(tlen as int));
                    assert(!contains_at(s@, t@, k as int));
                    if tlen == 0 {
                        assert(tail@.take(0) =~= t@);
                    }
                }
            },
        }
        k += 1;
    }
    proof {
        assert forall|kk: int| !contains_at(s@, t@, kk) by {
            if 0 <= kk <= slen - tlen {
                assert(!contains_at(s@, t@, kk));
            }
        }
    }
    false
}

/// Whether the line is the service's keepalive probe.
pub fn is_ping(line: &str) -> (r: bool)
    ensures
        r == spec_contains(line@, PING_PROBE@),
{
    contains_sub(line, PING_PROBE)
}

/// A control command for the worker.  `Terminate` asks it to close the
/// transport gracefully and exit its loop.
#[derive(Debug, PartialEq, Eq)]
pub enum Message {
    Text(String),
    Terminate,
}

/// What one attempt to read from the transport came to.
#[derive(Debug, PartialEq, Eq)]
pub enum SocketEvent {
    /// A whole line arrived.
    Line(String),
    /// Nothing to read yet; not an error.
    WouldBlock,
    /// The transport reported the connection closed; terminal.
    Closed,
    /// Any other transport error, with its description.
    TransportError(String),
}

/// The spec-level value of a [`SocketEvent`].
pub ghost enum SocketEventV {
    Line(Seq<char>),
    WouldBlock,
    Closed,
    TransportError(Seq<char>),
}

impl View for SocketEvent {
    type V = SocketEventV;

    open spec fn view(&self) -> SocketEventV {
        match self {
            SocketEvent::Line(l) => SocketEventV::Line(l@),
            SocketEvent::WouldBlock => SocketEventV::WouldBlock,
            SocketEvent::Closed => SocketEventV::Closed,
            SocketEvent::TransportError(d) => SocketEventV::TransportError(d@),
        }
    }
}

/// What the receive loop does next with one read outcome.
#[derive(Debug, PartialEq, Eq)]
pub enum WorkerAction {
    /// Write the matching keepalive reply; forward nothing.
    SendPong,
    /// Forward the line to the outbound channel.
    Forward(String),
    /// Nothing to do; sleep and retry.
    Ignore,
    /// Forward the closing notice to the outbound channel, then end the
    /// receive loop; terminal.
    Stop(String),
    /// Report the error and keep the loop running.
    Report(String),
}

/// The spec-level value of a [`WorkerAction`].
pub ghost enum WorkerActionV {
    SendPong,
    Forward(Seq<char>),
    Ignore,
    Stop(Seq<char>),
    Report(Seq<char>),
}

impl View for WorkerAction {
    type V = WorkerActionV;

    open spec fn view(&self) -> WorkerActionV {
        match self {
            WorkerAction::SendPong => WorkerActionV::SendPong,
            WorkerAction::Forward(l) => WorkerActionV::Forward(l@),
            WorkerAction::Ignore => WorkerActionV::Ignore,
            WorkerAction::Stop(notice) => WorkerActionV::Stop(notice@),
            WorkerAction::Report(d) => WorkerActionV::Report(d@),
        }
    }
}

/// What the receive loop does with each read outcome: answer the keepalive
/// probe, forward every other line in arrival order, sleep on a would-block,
/// surface a closed connection to the consumer and stop, and report any other
/// error without stopping.
pub open spec fn spec_worker_step(ev: SocketEventV) -> WorkerActionV {
    match ev {
        SocketEventV::Line(l) => if spec_contains(l, PING_PROBE@) {
            WorkerActionV::SendPong
        } else {
            WorkerActionV::Forward(l)
        },
        SocketEventV::WouldBlock => WorkerActionV::Ignore,
        SocketEventV::Closed => WorkerActionV::Stop(CLOSED_NOTICE@),
        SocketEventV::TransportError(d) => WorkerActionV::Report(d),
    }
}

/// Decide what the receive loop does with one read outcome.
pub fn worker_step(ev: SocketEvent) -> (r: WorkerAction)
    ensures
        r@ == spec_worker_step(ev@),
{
    match ev {
        SocketEvent::Line(l) => {
            if is_ping(l.as_str()) {
                WorkerAction::SendPong
            } else {
                WorkerAction::Forward(l)
            }
        },
        SocketEvent::WouldBlock => WorkerAction::Ignore,
        SocketEvent::Closed => WorkerAction::Stop(CLOSED_NOTICE.to_owned()),
        SocketEvent::TransportError(d) => WorkerAction::Report(d),
    }
}

/// A line carrying the keepalive probe is answered with exactly one pong and
/// is never forwarded to the outbound channel.
pub proof fn lemma_ping_answered_not_forwarded(l: Seq<char>)
    requires
        spec_contains(l, PING_PROBE@),
    ensures
        spec_worker_step(SocketEventV::Line(l)) == WorkerActionV::SendPong,
        !(spec_worker_step(SocketEventV::Line(l)) matches WorkerActionV::Forward(_)),
{
}

/// Decide whether the worker must close the transport and exit: exactly when
/// a `Terminate` command is pending on the control channel.  The loop checks
/// this once per iteration, so a pending `Terminate` is observed within one
/// retry interval.
pub fn control_step(ctrl: Option<&Message>) -> (close: bool)
    ensures
        close <==> (ctrl matches Some(m) && *m == Message::Terminate),
{
    match ctrl {
        Some(m) => match m {
            Message::Terminate => true,
            Message::Text(_) => false,
        },
        None => false,
    }
}


/// Relies on String::push_str: appends the given slice to the string.
#[verifier::external_body]
fn push_str(s: &mut String, t: &str)
    ensures
        final(s)@ == old(s)@ + t@,
{
    s.push_str(t)
}

/// The concatenation of two string slices.
pub fn concat2(a: &str, b: &str) -> (r: String)
    ensures
        r@ == a@ + b@,
{
    let mut s = a.to_owned();
    push_str(&mut s, b);
    s
}

/// The credential line sent first in the handshake.
pub fn auth_line(token: &str) -> (r: String)
    ensures
        r@ == "PASS oauth:"@ + token@,
{
    concat2("PASS oauth:", token)
}

/// The nickname line sent second in the handshake.
pub fn nick_line(nick: &str) -> (r: String)
    ensures
        r@ == "NICK "@ + nick@,
{
    concat2("NICK ", nick)
}

/// The channel-join line sent third in the handshake.
pub fn join_line(channel: &str) -> (r: String)
    ensures
        r@ == "JOIN #"@ + channel@,
{
    concat2("JOIN #", channel)
}

/// The four handshake lines, in the order they must be written at connection
/// start: authenticate, identify, join, request the tag capability.
pub fn handshake_lines(token: &str, channel: &str, nick: &str) -> (r: Vec<String>)
    ensures
        r@.len() == 4,
        r@[0]@ == "PASS oauth:"@ + token@,
        r@[1]@ == "NICK "@ + nick@,
        r@[2]@ == "JOIN #"@ + channel@,
        r@[3]@ == CAP_REQUEST@,
{
    let mut lines: Vec<String> = Vec::new();
    lines.push(auth_line(token));
    lines.push(nick_line(nick));
    lines.push(join_line(channel));
    lines.push(CAP_REQUEST.to_owned());
    lines
}

} // verus!
