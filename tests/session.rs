use peer_session::session::{
    displayable, heartbeat_message, should_report, Frame, Inbound, Mode, Reaction, Session,
    SessionEvent, TransportError,
};

fn text(s: &str) -> Frame {
    Frame::Text(s.to_string())
}

fn message_of(e: Option<SessionEvent>) -> String {
    match e {
        Some(SessionEvent::Message(t)) => t,
        other => panic!("expected a message, got {:?}", other),
    }
}

#[test]
fn new_session_waits_for_mode() {
    let s = Session::new("127.0.0.1:5000".to_string());
    assert_eq!(s.mode(), Mode::Unset);
    assert!(s.pending_file().is_none());
    assert_eq!(s.peer(), "127.0.0.1:5000");
}

#[test]
fn file_then_text_stays_file() {
    let mut s = Session::new("p".to_string());
    assert!(s.on_frame(text("file")).is_none());
    assert_eq!(s.mode(), Mode::File);
    assert!(s.on_frame(text("text")).is_none());
    assert_eq!(s.mode(), Mode::File);
}

#[test]
fn text_then_file_stays_text() {
    let mut s = Session::new("p".to_string());
    assert!(s.on_frame(text("text")).is_none());
    assert_eq!(s.mode(), Mode::Text);
    assert_eq!(message_of(s.on_frame(text("file"))), "file");
    assert_eq!(s.mode(), Mode::Text);
}

#[test]
fn unknown_keywords_are_ignored() {
    let mut s = Session::new("p".to_string());
    for m in ["", "File", "files", " text", "hello"] {
        assert!(s.on_frame(text(m)).is_none());
        assert_eq!(s.mode(), Mode::Unset);
    }
    assert!(s.on_frame(Frame::Control).is_none());
    assert_eq!(s.mode(), Mode::Unset);
}

#[test]
fn file_offer_scenario() {
    let mut s = Session::new("192.168.1.20:40000".to_string());
    assert!(s.on_frame(text("file")).is_none());
    let e = s.on_frame(text("report.csv<|>2048"));
    match e {
        Some(SessionEvent::FileOffer { peer, name, size }) => {
            assert_eq!(peer, "192.168.1.20:40000");
            assert_eq!(name, "report.csv");
            assert_eq!(size, 2048);
        }
        other => panic!("expected a file offer, got {:?}", other),
    }
    let p = s.pending_file().expect("a pending file");
    assert_eq!(p.name, "report.csv");
    assert_eq!(p.declared_size, 2048);
    // A second metadata message is not read as one.
    assert!(s.on_frame(text("other.txt<|>10")).is_none());
    assert_eq!(s.pending_file().unwrap().name, "report.csv");
}

#[test]
fn bad_file_meta_keeps_waiting() {
    let mut s = Session::new("p".to_string());
    s.on_frame(text("file"));
    for m in ["report.csv 2048", "report.csv<|>big", "a<|>b<|>3", "a<|>", "a<|>12x", "a<|>9223372036854775808"] {
        assert!(s.on_frame(text(m)).is_none());
        assert_eq!(s.mode(), Mode::File);
        assert!(s.pending_file().is_none());
    }
    assert!(s.on_frame(Frame::Binary(vec![1, 2, 3])).is_none());
    assert!(s.pending_file().is_none());
    // The peer may retry.
    assert!(matches!(s.on_frame(text("x<|> -5 ")), Some(SessionEvent::FileOffer { size: -5, .. })));
    assert_eq!(s.pending_file().unwrap().name, "x");
}

#[test]
fn payload_chunks_after_offer() {
    let mut s = Session::new("p".to_string());
    s.on_frame(text("file"));
    s.on_frame(text("f<|>3"));
    assert!(s.on_frame(text("ignored")).is_none());
    match s.on_frame(Frame::Binary(vec![7, 8, 9])) {
        Some(SessionEvent::PayloadChunk(b)) => assert_eq!(b, vec![7, 8, 9]),
        other => panic!("expected a chunk, got {:?}", other),
    }
}

#[test]
fn invalid_binary_in_text_mode_gives_placeholder() {
    let mut s = Session::new("p".to_string());
    s.on_frame(text("text"));
    let r = s.on_inbound(Inbound::Frame(Frame::Binary(vec![0xFF, 0xFE])));
    match r {
        Reaction::Emit(SessionEvent::Message(t)) => {
            assert_eq!(t, "could not convert message into text")
        }
        other => panic!("expected a message, got {:?}", other),
    }
    assert_eq!(s.mode(), Mode::Text);
    assert_eq!(message_of(s.on_frame(text("still here"))), "still here");
}

#[test]
fn valid_binary_in_text_mode_is_decoded() {
    let mut s = Session::new("p".to_string());
    s.on_frame(text("text"));
    assert_eq!(message_of(s.on_frame(Frame::Binary("héllo".as_bytes().to_vec()))), "héllo");
    assert_eq!(message_of(s.on_frame(Frame::Binary(vec![]))), "");
}

#[test]
fn binary_only_peer_changes_nothing() {
    let mut s = Session::new("p".to_string());
    for i in 0..5u8 {
        let r = s.on_inbound(Inbound::Frame(Frame::Binary(vec![i, 0x74, 0x65])));
        assert!(matches!(r, Reaction::Ignore));
        assert_eq!(s.mode(), Mode::Unset);
        match s.on_heartbeat_due() {
            Reaction::Send(t) => assert_eq!(t, "tick"),
            other => panic!("expected a heartbeat, got {:?}", other),
        }
    }
    assert!(matches!(s.on_inbound(Inbound::Frame(Frame::Close)), Reaction::Finish));
}

#[test]
fn heartbeats_whatever_the_state() {
    let mut s = Session::new("p".to_string());
    let mut sent = 0;
    for f in [text("file"), text("a<|>1"), Frame::Binary(vec![1])] {
        s.on_inbound(Inbound::Frame(f));
        if let Reaction::Send(t) = s.on_heartbeat_due() {
            assert_eq!(t, "tick");
            sent += 1;
        }
    }
    assert_eq!(sent, 3);
    assert_eq!(heartbeat_message(), "tick");
}

#[test]
fn close_and_end_finish_cleanly() {
    let mut s = Session::new("p".to_string());
    s.on_frame(text("text"));
    assert!(matches!(s.on_inbound(Inbound::End), Reaction::Finish));
    assert!(matches!(s.on_inbound(Inbound::Frame(Frame::Close)), Reaction::Finish));
    assert_eq!(s.mode(), Mode::Text);
}

#[test]
fn read_errors_end_the_session() {
    let mut s = Session::new("p".to_string());
    let r = s.on_inbound(Inbound::Failed(TransportError::Other("reset".to_string())));
    match r {
        Reaction::Fail(TransportError::Other(m)) => assert_eq!(m, "reset"),
        other => panic!("expected a failure, got {:?}", other),
    }
    assert!(matches!(
        s.on_inbound(Inbound::Failed(TransportError::Protocol)),
        Reaction::Fail(TransportError::Protocol)
    ));
}

#[test]
fn only_other_errors_are_reported() {
    assert!(!should_report(&TransportError::ConnectionClosed));
    assert!(!should_report(&TransportError::Protocol));
    assert!(!should_report(&TransportError::Utf8));
    assert!(should_report(&TransportError::Other("io".to_string())));
}

#[test]
fn displayable_falls_back_to_placeholder() {
    assert_eq!(displayable(Some("ok".to_string())), "ok");
    assert_eq!(displayable(None), "could not convert message into text");
}
