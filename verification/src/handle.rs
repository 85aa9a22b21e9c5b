//! The connection handle: the object through which application code sends
//! messages and through which the receive loop flips the open flag and swaps
//! the two stream halves on reconnect.
//!
//! The transport's real send and receive halves live with the host; the
//! handle tracks their identities as generation numbers so that the pairing
//! discipline (both installed halves always belong to the same connection,
//! and a reconnect retires both at once) is stated and checked here.

use vstd::prelude::*;
use vstd::string::StringExecFns;

use crate::frame::Frame;

verus! {

/// What should happen to one outbound message.
///
/// The host performs the action: `Transmit` means write the frame on the
/// current send half (write errors are swallowed; they surface through the
/// next read failure), `Discard` means drop it silently (the connection is
/// not open; there is no outbound buffering across disconnects), and
/// `RejectSerialize` means the value could not be encoded: log that and drop
/// this one send, leaving the connection untouched.
#[derive(PartialEq, Eq, Debug)]
pub enum SendAction {
    Transmit(Frame),
    Discard,
    RejectSerialize,
}

/// One resilient WebSocket connection: the target address, the open flag
/// that gates sends, and the identities of the currently installed send and
/// receive halves.
pub struct DioxusWs {
    /// Target address; immutable after creation.
    pub url: String,
    /// True only between the first frame received on the current connection
    /// and the next detected failure; sends are permitted only while true.
    pub open: bool,
    /// Identity of the installed send half.
    pub send_half: u64,
    /// Identity of the installed receive half.
    pub recv_half: u64,
    /// Identity of the current connection; each successful reconnect moves
    /// to the next generation.
    pub generation: u64,
}

impl DioxusWs {
    /// Both installed halves belong to the current connection: no half of an
    /// earlier generation survives a reconnect, and the pair is never mixed.
    pub open spec fn wf(self) -> bool {
        self.send_half == self.generation && self.recv_half == self.generation
    }

    /// What `send` decides for a message in this state.
    pub open spec fn sent_action(self, msg: Frame) -> SendAction {
        if self.open {
            SendAction::Transmit(msg)
        } else {
            SendAction::Discard
        }
    }

    /// A fresh handle for `url`: generation zero, both halves installed,
    /// and the open flag down until the receive loop confirms liveness.
    ///
    /// The host opens the real transport connection alongside this call and
    /// propagates a failure to do so to its caller; nothing is retried at
    /// construction time.
    pub fn new(url: &str) -> (ws: DioxusWs)
        ensures
            ws.url@ == url@,
            !ws.open,
            ws.generation == 0,
            ws.wf(),
    {
        DioxusWs {
            url: String::from_str(url),
            open: false,
            send_half: 0,
            recv_half: 0,
            generation: 0,
        }
    }

    /// Decide what to do with one outbound frame: transmit it if the open
    /// flag is up, silently discard it otherwise. The handle itself is
    /// untouched; nothing is queued for later.
    pub fn send(&self, msg: Frame) -> (a: SendAction)
        ensures
            a == self.sent_action(msg),
    {
        if self.open {
            SendAction::Transmit(msg)
        } else {
            SendAction::Discard
        }
    }

    /// Send a plain string as a text frame.
    pub fn send_text(&self, text: String) -> (a: SendAction)
        ensures
            a == self.sent_action(Frame::Text(text)),
    {
        self.send(Frame::Text(text))
    }

    /// Send a value already encoded as canonical JSON text, or report the
    /// encoding failure: the host passes `None` when serialization failed,
    /// and that single send is rejected (logged and dropped) without
    /// touching the connection.
    pub fn send_json(&self, json: Option<String>) -> (a: SendAction)
        ensures
            match json {
                Some(j) => a == self.sent_action(Frame::Text(j)),
                None => a == SendAction::RejectSerialize,
            },
    {
        match json {
            Some(j) => self.send(Frame::Text(j)),
            None => SendAction::RejectSerialize,
        }
    }

    /// Set the open flag. Returns whether the host should also ask the send
    /// half to close its underlying stream (best effort, errors ignored),
    /// which is owed exactly when the flag transitions from up to down.
    pub fn set_open(&mut self, open: bool) -> (close_requested: bool)
        ensures
            final(self).url == old(self).url,
            final(self).open == open,
            final(self).send_half == old(self).send_half,
            final(self).recv_half == old(self).recv_half,
            final(self).generation == old(self).generation,
            close_requested == (old(self).open && !open),
    {
        let was_open = self.open;
        self.open = open;
        was_open && !open
    }

    /// Install the halves of a freshly opened connection, retiring both old
    /// halves in one step: no caller ever observes a mixed pair. The open
    /// flag is left as it is; only a received frame raises it.
    pub fn reconnect(&mut self)
        requires
            old(self).generation < u64::MAX,
        ensures
            final(self).url == old(self).url,
            final(self).open == old(self).open,
            final(self).generation == old(self).generation + 1,
            final(self).send_half == final(self).generation,
            final(self).recv_half == final(self).generation,
            final(self).wf(),
    {
        self.generation = self.generation + 1;
        self.send_half = self.generation;
        self.recv_half = self.generation;
    }
}

} // verus!
