//! The recovery policy: each read failure costs one backoff sleep and one
//! reconnect attempt, failed attempts retry indefinitely, and a reconnect
//! installs a matched pair of fresh halves.

use dioxus_ws::Action;
use dioxus_ws::Event;
use dioxus_ws::Frame;
use dioxus_ws::HandlerMode;
use dioxus_ws::ReceiveLoop;

#[test]
fn n_failures_cost_n_backoffs_and_n_reconnects() {
    let mut rl = ReceiveLoop::new("ws://example", HandlerMode::Raw);
    let mut opens: usize = 0;
    let mut sleeps: usize = 0;
    let mut handled: usize = 0;

    // The peer greets; dispatch works and the flag rises.
    let acts = rl.step(Event::FrameRead(Frame::Text(String::from("hi"))));
    handled += acts.len();
    assert_eq!(handled, 1);

    let failures: usize = 3;
    for round in 0..failures {
        let acts = rl.step(Event::ReadError);
        if round == 0 {
            // The flag was up, so the send half is also asked to close.
            assert_eq!(
                acts,
                vec![Action::CloseSend, Action::LogReadError, Action::StartBackoff]
            );
        } else {
            // Consecutive failures find the flag already down.
            assert_eq!(acts, vec![Action::LogReadError, Action::StartBackoff]);
        }
        sleeps += 1;

        let acts = rl.step(Event::SleepDone);
        assert_eq!(acts, vec![Action::Connect]);
        opens += 1;

        let acts = rl.step(Event::ConnectOk);
        assert!(acts.is_empty());
    }

    assert_eq!(opens, failures);
    assert_eq!(sleeps, failures);

    // After the last successful open, normal dispatch resumes.
    let acts = rl.step(Event::FrameRead(Frame::Text(String::from("back"))));
    assert_eq!(acts, vec![Action::InvokeRaw(Frame::Text(String::from("back")))]);
    assert_eq!(handled + acts.len(), 2);
}

#[test]
fn failed_reconnect_backs_off_and_retries() {
    let mut rl = ReceiveLoop::new("ws://example", HandlerMode::Raw);

    rl.step(Event::FrameRead(Frame::Text(String::from("hi"))));
    rl.step(Event::ReadError);
    rl.step(Event::SleepDone);

    // Two failed attempts: each one backs off and tries again.
    let acts = rl.step(Event::ConnectFailed);
    assert_eq!(acts, vec![Action::StartBackoff]);
    let acts = rl.step(Event::SleepDone);
    assert_eq!(acts, vec![Action::Connect]);
    let acts = rl.step(Event::ConnectFailed);
    assert_eq!(acts, vec![Action::StartBackoff]);
    let acts = rl.step(Event::SleepDone);
    assert_eq!(acts, vec![Action::Connect]);

    // The third attempt succeeds and draining resumes.
    assert!(rl.step(Event::ConnectOk).is_empty());
    let acts = rl.step(Event::FrameRead(Frame::Text(String::from("again"))));
    assert_eq!(acts, vec![Action::InvokeRaw(Frame::Text(String::from("again")))]);
}

#[test]
fn reconnect_installs_one_matched_pair_of_halves() {
    let mut rl = ReceiveLoop::new("ws://example", HandlerMode::Raw);
    assert_eq!(rl.ws.send_half, rl.ws.recv_half);
    assert_eq!(rl.ws.generation, 0);

    for expected_generation in 1..4u64 {
        rl.step(Event::FrameRead(Frame::Text(String::from("hi"))));
        rl.step(Event::ReadError);
        rl.step(Event::SleepDone);
        rl.step(Event::ConnectOk);
        // Both halves were retired together: what is installed is exactly
        // the new connection's pair.
        assert_eq!(rl.ws.generation, expected_generation);
        assert_eq!(rl.ws.send_half, expected_generation);
        assert_eq!(rl.ws.recv_half, expected_generation);
    }
}

#[test]
fn reconnect_leaves_flag_down_until_peer_speaks() {
    let mut rl = ReceiveLoop::new("ws://example", HandlerMode::Raw);

    rl.step(Event::FrameRead(Frame::Text(String::from("hi"))));
    assert!(rl.ws.open);
    rl.step(Event::ReadError);
    assert!(!rl.ws.open);
    rl.step(Event::SleepDone);
    rl.step(Event::ConnectOk);
    assert!(!rl.ws.open);
    rl.step(Event::FrameRead(Frame::Text(String::from("greeting"))));
    assert!(rl.ws.open);
}
