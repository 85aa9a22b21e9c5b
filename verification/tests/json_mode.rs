//! JSON mode: text frames are decoded by the host at the loop's request;
//! a decoded value reaches the handler exactly once, a malformed frame is
//! only logged and dropped, and bytes frames are ignored.

use dioxus_ws::Action;
use dioxus_ws::Event;
use dioxus_ws::Frame;
use dioxus_ws::HandlerMode;
use dioxus_ws::LoopPhase;
use dioxus_ws::ReceiveLoop;

/// The application's message type in these tests.
#[derive(Debug, PartialEq)]
enum TestMsg {
    A,
}

/// The host-side decode step: JSON text to the application's type.
fn decode(text: &str) -> Option<TestMsg> {
    let v: serde_json::Value = serde_json::from_str(text).ok()?;
    let obj = v.as_object()?;
    if obj.len() == 1 && obj.get("A").map_or(false, |x| x.is_null()) {
        Some(TestMsg::A)
    } else {
        None
    }
}

/// Feed one inbound frame through a JSON-mode loop the way a host would,
/// decoding on request, and collect what reaches the handler.
fn feed(rl: &mut ReceiveLoop, frame: Frame, handled: &mut Vec<TestMsg>) -> Vec<Action> {
    let acts = rl.step(Event::FrameRead(frame));
    let mut all = Vec::new();
    let mut pending: Option<TestMsg> = None;
    let mut follow: Vec<Action> = Vec::new();
    for a in &acts {
        if let Action::Decode(text) = a {
            match decode(text) {
                Some(v) => {
                    pending = Some(v);
                    follow = rl.step(Event::DecodeOk);
                }
                None => {
                    follow = rl.step(Event::DecodeErr);
                }
            }
        }
    }
    for a in &follow {
        if let Action::InvokeJson = a {
            handled.push(pending.take().expect("a decoded value must be pending"));
        }
    }
    all.extend(acts);
    all.extend(follow);
    all
}

#[test]
fn well_formed_frame_reaches_handler_exactly_once() {
    let mut rl = ReceiveLoop::new("ws://example", HandlerMode::Json);
    let mut handled: Vec<TestMsg> = Vec::new();

    let all = feed(&mut rl, Frame::Text(String::from("{\"A\":null}")), &mut handled);
    assert_eq!(
        all,
        vec![Action::Decode(String::from("{\"A\":null}")), Action::InvokeJson]
    );
    assert_eq!(handled, vec![TestMsg::A]);
}

#[test]
fn malformed_frame_is_logged_and_connection_stays_open() {
    let mut rl = ReceiveLoop::new("ws://example", HandlerMode::Json);
    let mut handled: Vec<TestMsg> = Vec::new();

    // A first good frame raises the flag.
    feed(&mut rl, Frame::Text(String::from("{\"A\":null}")), &mut handled);
    assert!(rl.ws.open);

    let all = feed(&mut rl, Frame::Text(String::from("{not json")), &mut handled);
    assert_eq!(
        all,
        vec![Action::Decode(String::from("{not json")), Action::LogDecodeError]
    );
    // The handler was never invoked for it and the connection is untouched.
    assert_eq!(handled, vec![TestMsg::A]);
    assert!(rl.ws.open);
    assert_eq!(rl.phase, LoopPhase::Draining);

    // The loop keeps delivering afterwards.
    feed(&mut rl, Frame::Text(String::from("{\"A\":null}")), &mut handled);
    assert_eq!(handled, vec![TestMsg::A, TestMsg::A]);
}

#[test]
fn bytes_frames_are_ignored_in_json_mode() {
    let mut rl = ReceiveLoop::new("ws://example", HandlerMode::Json);
    let mut handled: Vec<TestMsg> = Vec::new();

    let all = feed(&mut rl, Frame::Bytes(vec![0xde, 0xad]), &mut handled);
    assert!(all.is_empty());
    assert!(handled.is_empty());
    // The frame still counts as the peer speaking.
    assert!(rl.ws.open);
}

#[test]
fn bytes_frames_are_ignored_in_text_mode() {
    let mut rl = ReceiveLoop::new("ws://example", HandlerMode::Text);
    let acts = rl.step(Event::FrameRead(Frame::Bytes(vec![1])));
    assert!(acts.is_empty());
    let acts = rl.step(Event::FrameRead(Frame::Text(String::from("t"))));
    assert_eq!(acts, vec![Action::InvokeText(String::from("t"))]);
}

#[test]
fn raw_mode_passes_every_frame() {
    let mut rl = ReceiveLoop::new("ws://example", HandlerMode::Raw);
    let acts = rl.step(Event::FrameRead(Frame::Bytes(vec![7])));
    assert_eq!(acts, vec![Action::InvokeRaw(Frame::Bytes(vec![7]))]);
    let acts = rl.step(Event::FrameRead(Frame::Text(String::from("raw"))));
    assert_eq!(acts, vec![Action::InvokeRaw(Frame::Text(String::from("raw")))]);
}
