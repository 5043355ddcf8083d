//! One peer session: the mode negotiation, the file-metadata handshake, the
//! events handed to the application, and what the connection loop does on
//! each inbound message, heartbeat or error.

use vstd::prelude::*;
use crate::protocol::{field_delim, file_keyword, file_meta, heartbeat_text, is_field_split, parse_file_meta, text_keyword};
use crate::text::{contains, decimal_i64, decode_utf8, occurs_at, trimmed, utf8_text};

verus! {

/// The negotiated purpose of a session.
#[derive(PartialEq, Eq, Structural, Clone, Copy, Debug)]
pub enum Mode {
    Unset,
    Text,
    File,
}

/// A file the peer has offered: its name and the size it declared.
#[derive(Clone, Debug)]
pub struct PendingFile {
    pub name: String,
    pub declared_size: i64,
}

/// Where a session stands.
#[derive(Clone, Debug)]
pub enum SessionState {
    AwaitingMode,
    Text,
    AwaitingFileMeta,
    AwaitingFilePayload(PendingFile),
}

/// The mathematical value of a [`SessionState`].
pub enum StateView {
    AwaitingMode,
    Text,
    AwaitingFileMeta,
    AwaitingFilePayload { name: Seq<char>, size: i64 },
}

/// One message read from the connection.
#[derive(Clone, Debug)]
pub enum Frame {
    Text(String),
    Binary(Vec<u8>),
    /// A ping or pong, which the transport answers by itself.
    Control,
    /// The peer's close message.
    Close,
}

/// What the session hands to the application.
#[derive(Clone, Debug)]
pub enum SessionEvent {
    /// The peer offers a file.
    FileOffer { peer: String, name: String, size: i64 },
    /// A message to show, in text mode.
    Message(String),
    /// A chunk of the announced file's content, for the payload sink.
    PayloadChunk(Vec<u8>),
}

/// The mathematical value of a [`SessionEvent`].
pub enum EventView {
    FileOffer { peer: Seq<char>, name: Seq<char>, size: i64 },
    Message(Seq<char>),
    PayloadChunk(Seq<u8>),
}

/// How reading from the connection failed.
#[derive(Clone, Debug)]
pub enum TransportError {
    /// The connection was already closed.
    ConnectionClosed,
    /// The peer broke the framing protocol.
    Protocol,
    /// A text message held invalid UTF-8.
    Utf8,
    /// Any other I/O failure, with its description.
    Other(String),
}

/// What the connection loop reads next.
#[derive(Clone, Debug)]
pub enum Inbound {
    Frame(Frame),
    /// The stream ended.
    End,
    Failed(TransportError),
}

/// What the connection loop does next.
#[derive(Clone, Debug)]
pub enum Reaction {
    /// Hand this event to the application and keep reading.
    Emit(SessionEvent),
    /// Nothing to do; keep reading.
    Ignore,
    /// Send this text to the peer.
    Send(String),
    /// End the session cleanly.
    Finish,
    /// End the session with this error.
    Fail(TransportError),
}

impl SessionEvent {
    pub open spec fn view(&self) -> EventView {
        match self {
            SessionEvent::FileOffer { peer, name, size } => EventView::FileOffer { peer: peer@, name: name@, size: *size },
            SessionEvent::Message(t) => EventView::Message(t@),
            SessionEvent::PayloadChunk(b) => EventView::PayloadChunk(b@),
        }
    }
}

pub open spec fn event_view(e: Option<SessionEvent>) -> Option<EventView> {
    match e {
        Some(e) => Some(e.view()),
        None => None,
    }
}

impl StateView {
    pub open spec fn mode(self) -> Mode {
        match self {
            StateView::AwaitingMode => Mode::Unset,
            StateView::Text => Mode::Text,
            _ => Mode::File,
        }
    }
}

/// Shown in place of a binary message that is not valid UTF-8.
pub open spec fn placeholder_text() -> Seq<char> {
    seq!['c', 'o', 'u', 'l', 'd', ' ', 'n', 'o', 't', ' ', 'c', 'o', 'n', 'v', 'e', 'r', 't', ' ',
         'm', 'e', 's', 's', 'a', 'g', 'e', ' ', 'i', 'n', 't', 'o', ' ', 't', 'e', 'x', 't']
}

/// The displayable form of a binary message.
pub open spec fn display_of(b: Seq<u8>) -> Seq<char> {
    match utf8_text(b) {
        Some(t) => t,
        None => placeholder_text(),
    }
}

/// The state a session moves to when message `f` arrives in state `s`.
pub open spec fn next_state(s: StateView, f: Frame) -> StateView {
    match s {
        StateView::AwaitingMode => match f {
            Frame::Text(t) => if t@ == text_keyword() {
                StateView::Text
            } else if t@ == file_keyword() {
                StateView::AwaitingFileMeta
            } else {
                s
            },
            _ => s,
        },
        StateView::AwaitingFileMeta => match f {
            Frame::Text(t) => match file_meta(t@) {
                Some((name, size)) => StateView::AwaitingFilePayload { name, size },
                None => s,
            },
            _ => s,
        },
        _ => s,
    }
}

/// The event, if any, that message `f` gives rise to in state `s` of a
/// session with `peer`.
pub open spec fn event_for(peer: Seq<char>, s: StateView, f: Frame) -> Option<EventView> {
    match s {
        StateView::AwaitingMode => None,
        StateView::Text => match f {
            Frame::Text(t) => Some(EventView::Message(t@)),
            Frame::Binary(b) => Some(EventView::Message(display_of(b@))),
            _ => None,
        },
        StateView::AwaitingFileMeta => match f {
            Frame::Text(t) => match file_meta(t@) {
                Some((name, size)) => Some(EventView::FileOffer { peer, name, size }),
                None => None,
            },
            _ => None,
        },
        StateView::AwaitingFilePayload { .. } => match f {
            Frame::Binary(b) => Some(EventView::PayloadChunk(b@)),
            _ => None,
        },
    }
}

/// The text shown for a binary message, given what decoding it as UTF-8
/// gave: the decoded text, or a fixed placeholder when it was not valid.
pub fn displayable(decoded: Option<String>) -> (r: String)
    ensures
        r@ == (match decoded {
            Some(t) => t@,
            None => placeholder_text(),
        }),
{
    match decoded {
        Some(t) => t,
        None => {
            proof {
                reveal_strlit("could not convert message into text");
                assert("could not convert message into text"@ =~= placeholder_text());
            }
            "could not convert message into text".to_owned()
        },
    }
}

/// The heartbeat message.
pub fn heartbeat_message() -> (r: String)
    ensures
        r@ == heartbeat_text(),
{
    proof {
        reveal_strlit("tick");
        assert("tick"@ =~= heartbeat_text());
    }
    "tick".to_owned()
}

/// Whether a session that ended with `e` is worth reporting: a closed
/// connection and a protocol or UTF-8 violation end it quietly, any other
/// failure is reported.
pub fn should_report(e: &TransportError) -> (r: bool)
    ensures
        r <==> e is Other,
{
    match e {
        TransportError::Other(_) => true,
        _ => false,
    }
}

/// The state a session reaches from `s` after the messages `frames`, in order.
pub open spec fn run(s: StateView, frames: Seq<Frame>) -> StateView
    decreases frames.len(),
{
    if frames.len() == 0 {
        s
    } else {
        next_state(run(s, frames.drop_last()), frames.last())
    }
}

/// Once a session's mode is set, no message changes it, and a mode is only
/// ever set from `Unset`.
pub proof fn lemma_mode_step(s: StateView, f: Frame)
    ensures
        s.mode() != Mode::Unset ==> next_state(s, f).mode() == s.mode(),
        next_state(s, f).mode() != s.mode() ==> s.mode() == Mode::Unset,
{
}

/// The mode changes at most once over any run of messages: once the first
/// `i` messages have set it, every longer prefix leaves it as it was.
pub proof fn lemma_mode_set_at_most_once(s: StateView, frames: Seq<Frame>, i: int, j: int)
    requires
        0 <= i <= j <= frames.len(),
        run(s, frames.take(i)).mode() != Mode::Unset,
    ensures
        run(s, frames.take(j)).mode() == run(s, frames.take(i)).mode(),
    decreases j - i,
{
    if j > i {
        lemma_mode_set_at_most_once(s, frames, i, j - 1);
        assert(frames.take(j).drop_last() =~= frames.take(j - 1));
        lemma_mode_step(run(s, frames.take(j - 1)), frames.take(j).last());
    }
}

/// A peer that never names a mode and sends only binary messages moves the
/// session nowhere and gets no event out of it.
pub proof fn lemma_binary_only_peer_stays_unset(peer: Seq<char>, frames: Seq<Frame>)
    requires
        forall|i: int| 0 <= i < frames.len() ==> #[trigger] frames[i] is Binary,
    ensures
        run(StateView::AwaitingMode, frames) == StateView::AwaitingMode,
        forall|i: int| 0 <= i < frames.len() ==> event_for(peer, StateView::AwaitingMode, #[trigger] frames[i]) is None,
    decreases frames.len(),
{
    if frames.len() > 0 {
        lemma_binary_only_peer_stays_unset(peer, frames.drop_last());
        assert(frames.last() is Binary);
    }
}

/// A file-metadata message without the separator, or whose size field is
/// not an integer, leaves the session waiting for metadata and offers no
/// file.
pub proof fn lemma_bad_file_meta_ignored(peer: Seq<char>, msg: Frame)
    requires
        msg matches Frame::Text(t) && (!contains(t@, field_delim()) || forall|name: Seq<char>, size: Seq<char>|
            #[trigger] is_field_split(t@, name, size) ==> decimal_i64(trimmed(size)) is None),
    ensures
        next_state(StateView::AwaitingFileMeta, msg) == StateView::AwaitingFileMeta,
        event_for(peer, StateView::AwaitingFileMeta, msg) is None,
{
    if let Frame::Text(t) = msg {
        if exists|name: Seq<char>, size: Seq<char>| is_field_split(t@, name, size) {
            let (name, size) = choose|name: Seq<char>, size: Seq<char>| is_field_split(t@, name, size);
            if !contains(t@, field_delim()) {
                assert(occurs_at(t@, field_delim(), name.len() as int)) by {
                    assert(t@.subrange(name.len() as int, name.len() + 3int) =~= field_delim());
                }
            }
        }
    }
}

/// The session of one accepted connection.
pub struct Session {
    peer: String,
    state: SessionState,
}

impl View for Session {
    type V = StateView;

    closed spec fn view(&self) -> StateView {
        match self.state {
            SessionState::AwaitingMode => StateView::AwaitingMode,
            SessionState::Text => StateView::Text,
            SessionState::AwaitingFileMeta => StateView::AwaitingFileMeta,
            SessionState::AwaitingFilePayload(p) => StateView::AwaitingFilePayload { name: p.name@, size: p.declared_size },
        }
    }
}

impl Session {
    pub closed spec fn peer_view(&self) -> Seq<char> {
        self.peer@
    }

    /// A session just accepted from `peer`, still waiting for its mode.
    pub fn new(peer: String) -> (r: Session)
        ensures
            r@ == StateView::AwaitingMode,
            r.peer_view() == peer@,
    {
        Session { peer, state: SessionState::AwaitingMode }
    }

    /// The peer's address, as given when the session was made.
    pub fn peer(&self) -> (r: &String)
        ensures
            r@ == self.peer_view(),
    {
        &self.peer
    }

    /// The negotiated mode.
    pub fn mode(&self) -> (r: Mode)
        ensures
            r == self@.mode(),
    {
        match self.state {
            SessionState::AwaitingMode => Mode::Unset,
            SessionState::Text => Mode::Text,
            _ => Mode::File,
        }
    }

    /// The offered file whose content is awaited, if any.
    pub fn pending_file(&self) -> (r: Option<&PendingFile>)
        ensures
            r is Some <==> self@ is AwaitingFilePayload,
            r matches Some(p) ==> self@ == (StateView::AwaitingFilePayload { name: p.name@, size: p.declared_size }),
    {
        match &self.state {
            SessionState::AwaitingFilePayload(p) => Some(p),
            _ => None,
        }
    }

    /// Handles one message other than a close: moves the session on and
    /// returns the event to hand to the application, if any.
    pub fn on_frame(&mut self, frame: Frame) -> (r: Option<SessionEvent>)
        ensures
            final(self)@ == next_state(old(self)@, frame),
            final(self).peer_view() == old(self).peer_view(),
            event_view(r) == event_for(old(self).peer_view(), old(self)@, frame),
    {
        let ghost f = frame;
        match self.state {
            SessionState::AwaitingMode => {
                if let Frame::Text(t) = frame {
                    let text_kw = "text".to_owned();
                    let file_kw = "file".to_owned();
                    proof {
                        reveal_strlit("text");
                        reveal_strlit("file");
                        assert(text_kw@ =~= text_keyword());
                        assert(file_kw@ =~= file_keyword());
                    }
                    if t.eq(&text_kw) {
                        self.state = SessionState::Text;
                    } else if t.eq(&file_kw) {
                        self.state = SessionState::AwaitingFileMeta;
                    }
                }
                None
            },
            SessionState::Text => {
                match frame {
                    Frame::Text(t) => Some(SessionEvent::Message(t)),
                    Frame::Binary(b) => Some(SessionEvent::Message(displayable(decode_utf8(&b)))),
                    _ => None,
                }
            },
            SessionState::AwaitingFileMeta => {
                if let Frame::Text(t) = frame {
                    match parse_file_meta(t.as_str()) {
                        Some((name, size)) => {
                            let peer = self.peer.clone();
                            self.state = SessionState::AwaitingFilePayload(
                                PendingFile { name: name.clone(), declared_size: size },
                            );
                            Some(SessionEvent::FileOffer { peer, name, size })
                        },
                        None => None,
                    }
                } else {
                    None
                }
            },
            SessionState::AwaitingFilePayload(_) => {
                match frame {
                    Frame::Binary(b) => Some(SessionEvent::PayloadChunk(b)),
                    _ => None,
                }
            },
        }
    }

    /// What the connection loop does with what it read: a close message or
    /// the end of the stream ends the session cleanly, a read error ends it
    /// with that error, any other message goes to [`Session::on_frame`].
    pub fn on_inbound(&mut self, inbound: Inbound) -> (r: Reaction)
        ensures
            final(self).peer_view() == old(self).peer_view(),
            match inbound {
                Inbound::Frame(Frame::Close) | Inbound::End => r is Finish && final(self)@ == old(self)@,
                Inbound::Failed(e) => r == Reaction::Fail(e) && final(self)@ == old(self)@,
                Inbound::Frame(f) => {
                    &&& final(self)@ == next_state(old(self)@, f)
                    &&& match event_for(old(self).peer_view(), old(self)@, f) {
                        Some(e) => r matches Reaction::Emit(x) && x.view() == e,
                        None => r is Ignore,
                    }
                },
            },
    {
        match inbound {
            Inbound::Frame(Frame::Close) | Inbound::End => Reaction::Finish,
            Inbound::Failed(e) => Reaction::Fail(e),
            Inbound::Frame(f) => match self.on_frame(f) {
                Some(e) => Reaction::Emit(e),
                None => Reaction::Ignore,
            },
        }
    }

    /// What the connection loop does when the heartbeat is due: send the
    /// heartbeat, whatever state the session is in.
    pub fn on_heartbeat_due(&self) -> (r: Reaction)
        ensures
            r matches Reaction::Send(t) && t@ == heartbeat_text(),
    {
        Reaction::Send(heartbeat_message())
    }
}

} // verus!
