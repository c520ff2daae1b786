use chat_session::Action;
use chat_session::Event;
use chat_session::Frame;
use chat_session::GenError;
use chat_session::GenReply;
use chat_session::Phase;
use chat_session::Role;
use chat_session::Session;

fn reply(content: &str) -> Result<GenReply, GenError> {
    Ok(GenReply { content: content.to_string(), name: None })
}

/// A session that has finished its handshake and is active.
fn active_session(prompt: &str, greeting: &str) -> Session {
    let mut s = Session::new(prompt.to_string());
    assert_eq!(s.phase(), Phase::Handshaking);
    match s.on_generation_result(reply(greeting)) {
        Action::Send(_) => {}
        _ => panic!("handshake must owe a reply frame"),
    }
    assert_eq!(s.phase(), Phase::Active);
    s
}

/// Feeds one user message and its backend reply, returning the reply frame.
fn exchange(s: &mut Session, msg: &str, generated: &str) -> String {
    match s.on_event(Event::Inbound(Frame::Text(msg.to_string()))) {
        Action::Request => {}
        _ => panic!("a text frame must owe a generation call"),
    }
    assert_eq!(s.phase(), Phase::Generating);
    match s.on_generation_result(reply(generated)) {
        Action::Send(frame) => frame,
        _ => panic!("a generation reply must owe a reply frame"),
    }
}

#[test]
fn first_turn_is_system_and_stable() {
    let mut s = active_session("You are terse.", "Ready.");
    exchange(&mut s, "one", "1");
    exchange(&mut s, "two", "2");
    let t = s.snapshot();
    assert_eq!(t[0].role, Role::System);
    assert_eq!(t[0].content, "You are terse.");
    assert_eq!(t[0].name, None);
}

#[test]
fn transcript_grows_two_per_frame_in_order() {
    let mut s = active_session("prompt", "hello");
    assert_eq!(s.snapshot().len(), 2);
    exchange(&mut s, "a", "ra");
    exchange(&mut s, "b", "rb");
    exchange(&mut s, "c", "rc");
    let t = s.snapshot();
    assert_eq!(t.len(), 2 + 2 * 3);
    let expect = [
        (Role::User, "a"),
        (Role::Assistant, "ra"),
        (Role::User, "b"),
        (Role::Assistant, "rb"),
        (Role::User, "c"),
        (Role::Assistant, "rc"),
    ];
    for (i, (role, content)) in expect.iter().enumerate() {
        assert_eq!(t[2 + i].role, *role);
        assert_eq!(t[2 + i].content, *content);
    }
}

#[test]
fn tick_sends_heartbeat_and_changes_nothing() {
    let mut s = active_session("prompt", "hello");
    let before = s.snapshot().len();
    for _ in 0..3 {
        match s.on_event(Event::Tick) {
            Action::Send(frame) => assert_eq!(frame, "Tick"),
            _ => panic!("a tick must owe the heartbeat frame"),
        }
    }
    assert_eq!(s.phase(), Phase::Active);
    assert_eq!(s.snapshot().len(), before);
}

#[test]
fn peer_close_terminates_without_frames() {
    let mut s = active_session("prompt", "hello");
    let before = s.snapshot().len();
    match s.on_event(Event::Inbound(Frame::Close)) {
        Action::Close => {}
        _ => panic!("a close frame must close without sending"),
    }
    assert_eq!(s.phase(), Phase::Closed);
    assert_eq!(s.snapshot().len(), before);
}

#[test]
fn exhausted_receive_side_closes() {
    let mut s = active_session("prompt", "hello");
    match s.on_event(Event::Exhausted) {
        Action::Close => {}
        _ => panic!("an exhausted source must close without sending"),
    }
    assert_eq!(s.phase(), Phase::Closed);
}

#[test]
fn other_frames_are_ignored() {
    let mut s = active_session("prompt", "hello");
    let before = s.snapshot().len();
    match s.on_event(Event::Inbound(Frame::Other)) {
        Action::Ignore => {}
        _ => panic!("control frames are not this layer's business"),
    }
    assert_eq!(s.phase(), Phase::Active);
    assert_eq!(s.snapshot().len(), before);
}

#[test]
fn round_trip_hello() {
    let mut s = active_session("Be nice.", "Welcome");
    let frame = exchange(&mut s, "hello", "Hi there");
    assert_eq!(frame, "AI: Hi there");
    let t = s.snapshot();
    assert_eq!(t[t.len() - 2].role, Role::User);
    assert_eq!(t[t.len() - 2].content, "hello");
    assert_eq!(t[t.len() - 1].role, Role::Assistant);
    assert_eq!(t[t.len() - 1].content, "Hi there");
    assert_eq!(s.phase(), Phase::Active);
}

#[test]
fn handshake_reply_is_prefixed_and_trimmed() {
    let mut s = Session::new("prompt".to_string());
    match s.on_generation_result(reply("  Welcome!\n")) {
        Action::Send(frame) => assert_eq!(frame, "AI: Welcome!"),
        _ => panic!("handshake must owe a reply frame"),
    }
    // The appended assistant turn keeps the untrimmed content.
    let t = s.snapshot();
    assert_eq!(t[1].content, "  Welcome!\n");
}

#[test]
fn sessions_are_independent() {
    let mut left = active_session("left prompt", "left ready");
    let mut right = active_session("right prompt", "right ready");
    let lf = exchange(&mut left, "apples", "I like apples");
    let rf = exchange(&mut right, "bridges", "Bridges are long");
    assert_eq!(lf, "AI: I like apples");
    assert_eq!(rf, "AI: Bridges are long");
    let lt = left.snapshot();
    let rt = right.snapshot();
    assert!(lt.iter().all(|t| !t.content.contains("Bridges")));
    assert!(rt.iter().all(|t| !t.content.contains("apples")));
}

#[test]
fn backend_failure_closes_with_error_frame() {
    let mut s = active_session("prompt", "hello");
    let mut other = active_session("prompt", "hello");
    match s.on_event(Event::Inbound(Frame::Text("hi".to_string()))) {
        Action::Request => {}
        _ => panic!("a text frame must owe a generation call"),
    }
    let before = s.snapshot().len();
    match s.on_generation_result(Err(GenError { message: "backend unavailable".to_string() })) {
        Action::SendClose(frame) => assert_eq!(frame, "Error: backend unavailable"),
        _ => panic!("a backend failure must owe one visible error frame"),
    }
    assert_eq!(s.phase(), Phase::Closed);
    assert_eq!(s.snapshot().len(), before);
    // The sibling session is untouched and still serves its own traffic.
    assert_eq!(other.phase(), Phase::Active);
    let frame = exchange(&mut other, "still here", "yes");
    assert_eq!(frame, "AI: yes");
}

#[test]
fn assistant_name_label_is_kept() {
    let mut s = Session::new("prompt".to_string());
    let outcome = Ok(GenReply { content: "hi".to_string(), name: Some("bot".to_string()) });
    match s.on_generation_result(outcome) {
        Action::Send(_) => {}
        _ => panic!("handshake must owe a reply frame"),
    }
    assert_eq!(s.snapshot()[1].name, Some("bot".to_string()));
}
