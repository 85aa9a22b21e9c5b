//! The receive loop as an event-driven state machine.
//!
//! The host owns the actual task: it awaits the transport and the timer,
//! feeds each outcome in as an [`Event`], and performs the returned
//! [`Action`]s. Every decision — when to raise or drop the open flag, when
//! to back off, when to reconnect, what to hand the application's handler —
//! is made here, so the whole recovery policy is verified.
//!
//! A read failure drops the open flag, closes the send half best-effort,
//! logs, and backs off for [`BACKOFF_MS`] before one reconnect attempt;
//! a failed attempt backs off again, indefinitely — a live subtree has no
//! terminal failure state. Only cancellation (the `Dispose` event, fed by
//! the host when the owning subtree is torn down) stops the machine, after
//! which it emits nothing ever again.

use vstd::prelude::*;

use crate::frame::Frame;
use crate::handle::DioxusWs;

verus! {

/// Fixed delay between a detected failure and the next reconnect attempt.
pub const BACKOFF_MS: u64 = 1000;

/// How inbound frames are handed to the application's handler.
#[derive(Clone, Copy, PartialEq, Eq, Structural, Debug)]
pub enum HandlerMode {
    /// Every frame is passed through as it came.
    Raw,
    /// Text frames are passed as strings; bytes frames are dropped.
    Text,
    /// Text frames are decoded from JSON by the host before dispatch;
    /// bytes frames are dropped (binary payloads are out of scope for
    /// typed decoding).
    Json,
}

/// Where the loop stands. A detected fault's bookkeeping (flag down, close,
/// log) happens in the same step that enters `Backoff`.
#[derive(Clone, Copy, PartialEq, Eq, Structural, Debug)]
pub enum LoopPhase {
    /// Normal operation: reading frames and dispatching them.
    Draining,
    /// Sleeping for [`BACKOFF_MS`] after a failure.
    Backoff,
    /// Waiting for the host's reconnect attempt to come back.
    Reconnecting,
    /// Cancelled; nothing further happens.
    Stopped,
}

/// What the host observed at its last suspension point.
#[derive(PartialEq, Eq, Debug)]
pub enum Event {
    /// The receive half yielded a frame.
    FrameRead(Frame),
    /// The receive half yielded an error.
    ReadError,
    /// The backoff sleep elapsed.
    SleepDone,
    /// A reconnect attempt opened a new connection.
    ConnectOk,
    /// A reconnect attempt failed.
    ConnectFailed,
    /// The JSON decode requested by the last `Decode` action succeeded.
    DecodeOk,
    /// That decode failed.
    DecodeErr,
    /// The owning subtree was disposed; cancel the loop.
    Dispose,
}

/// What the host must do next, in order.
#[derive(PartialEq, Eq, Debug)]
pub enum Action {
    /// Invoke the handler with the raw frame.
    InvokeRaw(Frame),
    /// Invoke the handler with the text payload.
    InvokeText(String),
    /// Try to decode this text as JSON into the application's type, then
    /// feed back `DecodeOk` or `DecodeErr`.
    Decode(String),
    /// Invoke the handler with the value just decoded.
    InvokeJson,
    /// Log the decode failure; the frame is dropped, the connection stands.
    LogDecodeError,
    /// Log the read failure.
    LogReadError,
    /// Ask the send half to close its stream, best effort.
    CloseSend,
    /// Sleep for [`BACKOFF_MS`], then feed back `SleepDone`.
    StartBackoff,
    /// Open a new connection to the handle's address, then feed back
    /// `ConnectOk` or `ConnectFailed`.
    Connect,
}

/// One connection's receive loop: the handle it drives, the dispatch mode,
/// and its position in the recovery state machine.
pub struct ReceiveLoop {
    pub ws: DioxusWs,
    pub mode: HandlerMode,
    pub phase: LoopPhase,
    /// A `Decode` action is outstanding; only its outcome is admissible.
    pub awaiting_decode: bool,
}

impl ReceiveLoop {
    pub open spec fn wf(self) -> bool {
        self.ws.wf()
    }

    /// The state after processing `e`. Events that cannot occur under the
    /// host's driving discipline (a sleep expiring while draining, a frame
    /// arriving mid-decode) leave the state untouched.
    pub open spec fn stepped(self, e: Event) -> ReceiveLoop {
        if self.phase == LoopPhase::Stopped {
            self
        } else if e == Event::Dispose {
            ReceiveLoop {
                ws: DioxusWs { open: false, ..self.ws },
                phase: LoopPhase::Stopped,
                awaiting_decode: false,
                ..self
            }
        } else {
            match self.phase {
                LoopPhase::Draining => if self.awaiting_decode {
                    match e {
                        Event::DecodeOk | Event::DecodeErr => ReceiveLoop {
                            awaiting_decode: false,
                            ..self
                        },
                        _ => self,
                    }
                } else {
                    match e {
                        Event::FrameRead(f) => ReceiveLoop {
                            ws: DioxusWs { open: true, ..self.ws },
                            awaiting_decode: self.mode == HandlerMode::Json && f is Text,
                            ..self
                        },
                        Event::ReadError => ReceiveLoop {
                            ws: DioxusWs { open: false, ..self.ws },
                            phase: LoopPhase::Backoff,
                            ..self
                        },
                        _ => self,
                    }
                },
                LoopPhase::Backoff => match e {
                    Event::SleepDone => ReceiveLoop { phase: LoopPhase::Reconnecting, ..self },
                    _ => self,
                },
                LoopPhase::Reconnecting => match e {
                    Event::ConnectOk => if self.ws.generation < u64::MAX {
                        ReceiveLoop {
                            ws: DioxusWs {
                                open: self.ws.open,
                                generation: (self.ws.generation + 1) as u64,
                                send_half: (self.ws.generation + 1) as u64,
                                recv_half: (self.ws.generation + 1) as u64,
                                ..self.ws
                            },
                            phase: LoopPhase::Draining,
                            ..self
                        }
                    } else {
                        ReceiveLoop { phase: LoopPhase::Backoff, ..self }
                    },
                    Event::ConnectFailed => ReceiveLoop { phase: LoopPhase::Backoff, ..self },
                    _ => self,
                },
                LoopPhase::Stopped => self,
            }
        }
    }

    /// The actions processing `e` emits, in order.
    pub open spec fn emitted(self, e: Event) -> Seq<Action> {
        if self.phase == LoopPhase::Stopped {
            seq![]
        } else if e == Event::Dispose {
            if self.ws.open {
                seq![Action::CloseSend]
            } else {
                seq![]
            }
        } else {
            match self.phase {
                LoopPhase::Draining => if self.awaiting_decode {
                    match e {
                        Event::DecodeOk => seq![Action::InvokeJson],
                        Event::DecodeErr => seq![Action::LogDecodeError],
                        _ => seq![],
                    }
                } else {
                    match e {
                        Event::FrameRead(f) => match self.mode {
                            HandlerMode::Raw => seq![Action::InvokeRaw(f)],
                            HandlerMode::Text => match f {
                                Frame::Text(t) => seq![Action::InvokeText(t)],
                                Frame::Bytes(_) => seq![],
                            },
                            HandlerMode::Json => match f {
                                Frame::Text(t) => seq![Action::Decode(t)],
                                Frame::Bytes(_) => seq![],
                            },
                        },
                        Event::ReadError => if self.ws.open {
                            seq![Action::CloseSend, Action::LogReadError, Action::StartBackoff]
                        } else {
                            seq![Action::LogReadError, Action::StartBackoff]
                        },
                        _ => seq![],
                    }
                },
                LoopPhase::Backoff => match e {
                    Event::SleepDone => seq![Action::Connect],
                    _ => seq![],
                },
                LoopPhase::Reconnecting => match e {
                    Event::ConnectOk => if self.ws.generation < u64::MAX {
                        seq![]
                    } else {
                        seq![Action::StartBackoff]
                    },
                    Event::ConnectFailed => seq![Action::StartBackoff],
                    _ => seq![],
                },
                LoopPhase::Stopped => seq![],
            }
        }
    }

    /// A fresh loop for one connection: draining, nothing outstanding, the
    /// open flag down until the peer speaks.
    pub fn new(url: &str, mode: HandlerMode) -> (rl: ReceiveLoop)
        ensures
            rl.ws.url@ == url@,
            !rl.ws.open,
            rl.ws.generation == 0,
            rl.wf(),
            rl.mode == mode,
            rl.phase == LoopPhase::Draining,
            !rl.awaiting_decode,
    {
        ReceiveLoop {
            ws: DioxusWs::new(url),
            mode,
            phase: LoopPhase::Draining,
            awaiting_decode: false,
        }
    }

    /// Process one event: move to [`stepped`](Self::stepped) and return
    /// exactly [`emitted`](Self::emitted).
    pub fn step(&mut self, e: Event) -> (acts: Vec<Action>)
        ensures
            *final(self) == old(self).stepped(e),
            acts@ == old(self).emitted(e),
    {
        let ghost pre = *self;
        let mut acts: Vec<Action> = Vec::new();
        if self.phase == LoopPhase::Stopped {
            assert(acts@ =~= pre.emitted(e));
            return acts;
        }
        match e {
            Event::Dispose => {
                if self.ws.set_open(false) {
                    acts.push(Action::CloseSend);
                }
                self.awaiting_decode = false;
                self.phase = LoopPhase::Stopped;
            },
            Event::FrameRead(f) => {
                if self.phase == LoopPhase::Draining && !self.awaiting_decode {
                    let _was = self.ws.set_open(true);
                    match self.mode {
                        HandlerMode::Raw => {
                            acts.push(Action::InvokeRaw(f));
                        },
                        HandlerMode::Text => {
                            if let Frame::Text(t) = f {
                                acts.push(Action::InvokeText(t));
                            }
                        },
                        HandlerMode::Json => {
                            if let Frame::Text(t) = f {
                                acts.push(Action::Decode(t));
                                self.awaiting_decode = true;
                            }
                        },
                    }
                }
            },
            Event::ReadError => {
                if self.phase == LoopPhase::Draining && !self.awaiting_decode {
                    if self.ws.set_open(false) {
                        acts.push(Action::CloseSend);
                    }
                    acts.push(Action::LogReadError);
                    acts.push(Action::StartBackoff);
                    self.phase = LoopPhase::Backoff;
                }
            },
            Event::DecodeOk => {
                if self.phase == LoopPhase::Draining && self.awaiting_decode {
                    self.awaiting_decode = false;
                    acts.push(Action::InvokeJson);
                }
            },
            Event::DecodeErr => {
                if self.phase == LoopPhase::Draining && self.awaiting_decode {
                    self.awaiting_decode = false;
                    acts.push(Action::LogDecodeError);
                }
            },
            Event::SleepDone => {
                if self.phase == LoopPhase::Backoff {
                    self.phase = LoopPhase::Reconnecting;
                    acts.push(Action::Connect);
                }
            },
            Event::ConnectOk => {
                if self.phase == LoopPhase::Reconnecting {
                    if self.ws.generation < u64::MAX {
                        self.ws.reconnect();
                        self.phase = LoopPhase::Draining;
                    } else {
                        self.phase = LoopPhase::Backoff;
                        acts.push(Action::StartBackoff);
                    }
                }
            },
            Event::ConnectFailed => {
                if self.phase == LoopPhase::Reconnecting {
                    self.phase = LoopPhase::Backoff;
                    acts.push(Action::StartBackoff);
                }
            },
        }
        assert(acts@ =~= pre.emitted(e));
        acts
    }
}

} // verus!
