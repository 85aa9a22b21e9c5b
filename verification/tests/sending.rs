//! Outbound path: sends are gated on the open flag — transmitted exactly
//! once while it is up, dropped (never buffered) while it is down.

use dioxus_ws::Action;
use dioxus_ws::DioxusWs;
use dioxus_ws::Event;
use dioxus_ws::Frame;
use dioxus_ws::HandlerMode;
use dioxus_ws::ReceiveLoop;
use dioxus_ws::SendAction;

/// The transport as the tests see it: it only counts what reaches it.
struct MockTransport {
    writes: Vec<Frame>,
}

impl MockTransport {
    fn new() -> MockTransport {
        MockTransport { writes: Vec::new() }
    }

    fn perform(&mut self, a: SendAction) {
        if let SendAction::Transmit(f) = a {
            self.writes.push(f);
        }
    }
}

#[test]
fn new_handle_starts_closed() {
    let ws = DioxusWs::new("ws://example");
    assert_eq!(ws.url, "ws://example");
    assert!(!ws.open);
    assert_eq!(ws.generation, 0);
}

#[test]
fn send_text_writes_exactly_once_when_open() {
    let mut rl = ReceiveLoop::new("ws://example", HandlerMode::Text);
    let mut transport = MockTransport::new();

    // The peer speaks first; that raises the open flag.
    let acts = rl.step(Event::FrameRead(Frame::Text(String::from("hello"))));
    assert_eq!(acts, vec![Action::InvokeText(String::from("hello"))]);
    assert!(rl.ws.open);

    transport.perform(rl.ws.send_text(String::from("ping")));
    assert_eq!(transport.writes.len(), 1);
    assert_eq!(transport.writes[0], Frame::Text(String::from("ping")));
}

#[test]
fn send_text_writes_nothing_when_closed() {
    let rl = ReceiveLoop::new("ws://example", HandlerMode::Text);
    let mut transport = MockTransport::new();

    transport.perform(rl.ws.send_text(String::from("ping")));
    assert_eq!(transport.writes.len(), 0);
}

#[test]
fn closed_submission_is_not_requeued_after_reconnect() {
    let mut rl = ReceiveLoop::new("ws://example", HandlerMode::Raw);
    let mut transport = MockTransport::new();

    // Submitted while the flag is down: dropped on the spot.
    transport.perform(rl.ws.send_text(String::from("lost")));
    assert_eq!(transport.writes.len(), 0);

    // A full failure-and-recovery round, then the peer speaks again.
    rl.step(Event::ReadError);
    rl.step(Event::SleepDone);
    rl.step(Event::ConnectOk);
    rl.step(Event::FrameRead(Frame::Text(String::from("greeting"))));
    assert!(rl.ws.open);

    // The dropped frame never surfaces; only what is sent now does.
    transport.perform(rl.ws.send_text(String::from("fresh")));
    assert_eq!(transport.writes, vec![Frame::Text(String::from("fresh"))]);
}

#[test]
fn send_bytes_frame_passes_through() {
    let mut rl = ReceiveLoop::new("ws://example", HandlerMode::Raw);
    let mut transport = MockTransport::new();

    rl.step(Event::FrameRead(Frame::Text(String::from("hi"))));
    transport.perform(rl.ws.send(Frame::Bytes(vec![1, 2, 3])));
    assert_eq!(transport.writes, vec![Frame::Bytes(vec![1, 2, 3])]);
}

#[test]
fn send_json_transmits_encoded_text_when_open() {
    let mut rl = ReceiveLoop::new("ws://example", HandlerMode::Json);
    let mut transport = MockTransport::new();

    rl.step(Event::FrameRead(Frame::Text(String::from("{}"))));
    rl.step(Event::DecodeErr);

    // The host encodes the value; here it succeeded.
    let encoded = serde_json::to_string(&serde_json::Value::Bool(true)).ok();
    transport.perform(rl.ws.send_json(encoded));
    assert_eq!(transport.writes, vec![Frame::Text(String::from("true"))]);
}

#[test]
fn send_json_rejects_unencodable_value() {
    let mut rl = ReceiveLoop::new("ws://example", HandlerMode::Json);

    rl.step(Event::FrameRead(Frame::Text(String::from("{}"))));
    rl.step(Event::DecodeErr);
    assert!(rl.ws.open);

    // The host could not encode the value: that single send is rejected,
    // the connection is untouched.
    let a = rl.ws.send_json(None);
    assert_eq!(a, SendAction::RejectSerialize);
    assert!(rl.ws.open);
}

#[test]
fn reconnect_replaces_both_halves_and_keeps_flag() {
    let mut ws = DioxusWs::new("ws://example");
    ws.set_open(true);
    ws.reconnect();
    assert_eq!(ws.generation, 1);
    assert_eq!(ws.send_half, 1);
    assert_eq!(ws.recv_half, 1);
    assert!(ws.open);
    assert_eq!(ws.url, "ws://example");
}

#[test]
fn set_open_requests_close_only_on_downward_transition() {
    let mut ws = DioxusWs::new("ws://example");
    assert!(!ws.set_open(true));
    assert!(!ws.set_open(true));
    assert!(ws.set_open(false));
    assert!(!ws.set_open(false));
}
