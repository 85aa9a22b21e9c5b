//! What the machine guarantees over whole runs, not just single steps:
//! half pairing across reconnects, the drop-not-buffer send policy, the
//! one-reconnect-per-failure accounting, JSON dispatch, and silence after
//! disposal. Each law is stated over the spec-level run of the receive
//! loop, so it covers every sequence of events a host could feed in.

use vstd::prelude::*;

use crate::frame::Frame;
use crate::handle::SendAction;
use crate::rxloop::Action;
use crate::rxloop::Event;
use crate::rxloop::LoopPhase;
use crate::rxloop::HandlerMode;
use crate::rxloop::ReceiveLoop;

verus! {

/// The state after the loop processes `es`, in order.
pub open spec fn run_events(s: ReceiveLoop, es: Seq<Event>) -> ReceiveLoop
    decreases es.len(),
{
    if es.len() == 0 {
        s
    } else {
        run_events(s.stepped(es[0]), es.drop_first())
    }
}

/// Everything the loop asks the host to do while processing `es`, in order.
pub open spec fn emitted_trace(s: ReceiveLoop, es: Seq<Event>) -> Seq<Action>
    decreases es.len(),
{
    if es.len() == 0 {
        seq![]
    } else {
        s.emitted(es[0]) + emitted_trace(s.stepped(es[0]), es.drop_first())
    }
}

/// How many reconnect attempts a trace asks for.
pub open spec fn count_connects(tr: Seq<Action>) -> nat
    decreases tr.len(),
{
    if tr.len() == 0 {
        0
    } else {
        (if tr[0] == Action::Connect { 1nat } else { 0nat }) + count_connects(tr.drop_first())
    }
}

/// How many backoff sleeps a trace asks for.
pub open spec fn count_backoffs(tr: Seq<Action>) -> nat
    decreases tr.len(),
{
    if tr.len() == 0 {
        0
    } else {
        (if tr[0] == Action::StartBackoff { 1nat } else { 0nat }) + count_backoffs(tr.drop_first())
    }
}

/// How many read failures a trace logs.
pub open spec fn count_read_errors(tr: Seq<Action>) -> nat
    decreases tr.len(),
{
    if tr.len() == 0 {
        0
    } else {
        (if tr[0] == Action::LogReadError { 1nat } else { 0nat }) + count_read_errors(tr.drop_first())
    }
}

/// The subtree stays alive throughout: no cancellation among the events.
pub open spec fn no_dispose(es: Seq<Event>) -> bool {
    forall|i: int| 0 <= i < es.len() ==> es[i] != Event::Dispose
}

/// Every reconnect attempt in `es` comes back successful.
pub open spec fn no_connect_failures(es: Seq<Event>) -> bool {
    forall|i: int| 0 <= i < es.len() ==> es[i] != Event::ConnectFailed
}

/// One backoff sleep is pending in this phase.
pub open spec fn backoff_pending(s: ReceiveLoop) -> nat {
    if s.phase == LoopPhase::Backoff {
        1
    } else {
        0
    }
}

proof fn lemma_counts_concat(a: Seq<Action>, b: Seq<Action>)
    ensures
        count_connects(a + b) == count_connects(a) + count_connects(b),
        count_backoffs(a + b) == count_backoffs(a) + count_backoffs(b),
        count_read_errors(a + b) == count_read_errors(a) + count_read_errors(b),
    decreases a.len(),
{
    if a.len() == 0 {
        assert(a + b =~= b);
    } else {
        assert((a + b).drop_first() =~= a.drop_first() + b);
        lemma_counts_concat(a.drop_first(), b);
    }
}

/// Law: the halves stay paired. From any well-formed state, any run leaves
/// exactly the one send half and the one receive half of the current
/// connection installed — never a half of an earlier generation, never a
/// mixed pair, however many reconnects happen — and the connection
/// generation never moves backwards, so a retired half is never
/// reinstalled.
pub proof fn lemma_halves_paired(s: ReceiveLoop, es: Seq<Event>)
    requires
        s.wf(),
    ensures
        run_events(s, es).wf(),
        run_events(s, es).ws.send_half == run_events(s, es).ws.recv_half,
        run_events(s, es).ws.generation >= s.ws.generation,
        run_events(s, es).ws.url == s.ws.url,
    decreases es.len(),
{
    if es.len() > 0 {
        assert(s.stepped(es[0]).wf());
        lemma_halves_paired(s.stepped(es[0]), es.drop_first());
    }
}

/// An interleaving of loop events with outbound submissions through the
/// shared handle.
pub enum SysOp {
    Loop(Event),
    Submit(Frame),
}

/// The state after the interleaved ops: submissions never touch it.
pub open spec fn sys_run(s: ReceiveLoop, ops: Seq<SysOp>) -> ReceiveLoop
    decreases ops.len(),
{
    if ops.len() == 0 {
        s
    } else {
        match ops[0] {
            SysOp::Loop(e) => sys_run(s.stepped(e), ops.drop_first()),
            SysOp::Submit(_) => sys_run(s, ops.drop_first()),
        }
    }
}

/// The frames actually written to the transport during the interleaved
/// ops, in order: exactly the submissions that `send` turned into a
/// `Transmit`.
pub open spec fn sys_transmits(s: ReceiveLoop, ops: Seq<SysOp>) -> Seq<Frame>
    decreases ops.len(),
{
    if ops.len() == 0 {
        seq![]
    } else {
        match ops[0] {
            SysOp::Loop(e) => sys_transmits(s.stepped(e), ops.drop_first()),
            SysOp::Submit(f) => (match s.ws.sent_action(f) {
                SendAction::Transmit(g) => seq![g],
                _ => seq![],
            }) + sys_transmits(s, ops.drop_first()),
        }
    }
}

/// Law: drop, not buffer. A frame submitted while the open flag is down is
/// discarded on the spot — it is never written, it leaves no trace in the
/// state, and whatever happens afterwards (including reconnects), the
/// transport sees exactly what it would have seen had the frame never been
/// submitted.
pub proof fn lemma_closed_submission_vanishes(s: ReceiveLoop, f: Frame, rest: Seq<SysOp>)
    requires
        !s.ws.open,
    ensures
        s.ws.sent_action(f) == SendAction::Discard,
        sys_run(s, seq![SysOp::Submit(f)] + rest) == sys_run(s, rest),
        sys_transmits(s, seq![SysOp::Submit(f)] + rest) == sys_transmits(s, rest),
{
    let full = seq![SysOp::Submit(f)] + rest;
    assert(full[0] == SysOp::Submit(f));
    assert(full.drop_first() =~= rest);
    assert(sys_transmits(s, full) =~= sys_transmits(s, rest));
}

/// Law: a submission while the open flag is up is written exactly once,
/// with its payload untouched, ahead of everything written later; the
/// state is untouched either way.
pub proof fn lemma_open_submission_written_once(s: ReceiveLoop, f: Frame, rest: Seq<SysOp>)
    requires
        s.ws.open,
    ensures
        s.ws.sent_action(f) == SendAction::Transmit(f),
        sys_run(s, seq![SysOp::Submit(f)] + rest) == sys_run(s, rest),
        sys_transmits(s, seq![SysOp::Submit(f)] + rest) == seq![f] + sys_transmits(s, rest),
{
    let full = seq![SysOp::Submit(f)] + rest;
    assert(full[0] == SysOp::Submit(f));
    assert(full.drop_first() =~= rest);
    assert(sys_transmits(s, full) =~= seq![f] + sys_transmits(s, rest));
}

/// Law: one reconnect per failure, one backoff per reconnect. Over any run
/// in which the subtree stays alive and every reconnect attempt succeeds,
/// the number of reconnects the loop asks for equals the number of backoff
/// sleeps it has finished serving (one sleep may still be pending at the
/// end), and the number of backoff sleeps equals the number of read
/// failures it logged. The generation headroom bound only rules out the
/// counter exhausting `u64`.
pub proof fn lemma_one_reconnect_per_failure(s: ReceiveLoop, es: Seq<Event>)
    requires
        no_dispose(es),
        no_connect_failures(es),
        s.ws.generation + es.len() <= u64::MAX,
    ensures
        count_connects(emitted_trace(s, es)) + backoff_pending(run_events(s, es))
            == count_backoffs(emitted_trace(s, es)) + backoff_pending(s),
        count_backoffs(emitted_trace(s, es)) == count_read_errors(emitted_trace(s, es)),
        run_events(s, es).ws.generation <= s.ws.generation + es.len(),
    decreases es.len(),
{
    reveal_with_fuel(count_connects, 5);
    reveal_with_fuel(count_backoffs, 5);
    reveal_with_fuel(count_read_errors, 5);
    if es.len() > 0 {
        let s1 = s.stepped(es[0]);
        assert(es[0] != Event::Dispose && es[0] != Event::ConnectFailed);
        assert(no_dispose(es.drop_first()) && no_connect_failures(es.drop_first())) by {
            assert(forall|i: int|
                0 <= i < es.drop_first().len() ==> es.drop_first()[i] == es[i + 1]);
        }
        lemma_one_reconnect_per_failure(s1, es.drop_first());
        lemma_counts_concat(s.emitted(es[0]), emitted_trace(s1, es.drop_first()));
        assert(emitted_trace(s, es) == s.emitted(es[0]) + emitted_trace(s1, es.drop_first()));
    }
}

/// The exact event pattern of one failure round: a read error, the
/// backoff sleep elapsing, and a reconnect attempt that succeeds.
pub open spec fn failure_round() -> Seq<Event> {
    seq![Event::ReadError, Event::SleepDone, Event::ConnectOk]
}

/// `n` consecutive failure rounds.
pub open spec fn failure_rounds(n: nat) -> Seq<Event>
    decreases n,
{
    if n == 0 {
        seq![]
    } else {
        failure_round() + failure_rounds((n - 1) as nat)
    }
}

proof fn lemma_run_concat(s: ReceiveLoop, es1: Seq<Event>, es2: Seq<Event>)
    ensures
        run_events(s, es1 + es2) == run_events(run_events(s, es1), es2),
        emitted_trace(s, es1 + es2) == emitted_trace(s, es1) + emitted_trace(
            run_events(s, es1),
            es2,
        ),
    decreases es1.len(),
{
    if es1.len() == 0 {
        assert(es1 + es2 =~= es2);
        assert(emitted_trace(s, es1) + emitted_trace(run_events(s, es1), es2) =~= emitted_trace(
            s,
            es2,
        ));
    } else {
        assert((es1 + es2)[0] == es1[0]);
        assert((es1 + es2).drop_first() =~= es1.drop_first() + es2);
        lemma_run_concat(s.stepped(es1[0]), es1.drop_first(), es2);
        assert(s.emitted(es1[0]) + (emitted_trace(s.stepped(es1[0]), es1.drop_first())
            + emitted_trace(run_events(s, es1), es2)) =~= (s.emitted(es1[0]) + emitted_trace(
            s.stepped(es1[0]),
            es1.drop_first(),
        )) + emitted_trace(run_events(s, es1), es2));
    }
}

proof fn lemma_one_failure_round(s: ReceiveLoop)
    requires
        s.phase == LoopPhase::Draining,
        !s.awaiting_decode,
        s.ws.generation < u64::MAX,
    ensures
        ({
            let s2 = run_events(s, failure_round());
            &&& s2.phase == LoopPhase::Draining
            &&& !s2.awaiting_decode
            &&& !s2.ws.open
            &&& s2.mode == s.mode
            &&& s2.ws.url == s.ws.url
            &&& s2.ws.generation == s.ws.generation + 1
            &&& emitted_trace(s, failure_round()) == (if s.ws.open {
                seq![Action::CloseSend]
            } else {
                Seq::<Action>::empty()
            }) + seq![Action::LogReadError, Action::StartBackoff, Action::Connect]
        }),
{
    reveal_with_fuel(run_events, 5);
    reveal_with_fuel(emitted_trace, 5);
    assert(failure_round().drop_first() =~= seq![Event::SleepDone, Event::ConnectOk]);
    assert(seq![Event::SleepDone, Event::ConnectOk].drop_first() =~= seq![Event::ConnectOk]);
    assert(seq![Event::ConnectOk].drop_first() =~= Seq::<Event>::empty());
    assert(emitted_trace(s, failure_round()) =~= (if s.ws.open {
        seq![Action::CloseSend]
    } else {
        Seq::<Action>::empty()
    }) + seq![Action::LogReadError, Action::StartBackoff, Action::Connect]);
}

/// Law: after `n` consecutive read failures, each recovered by one
/// successful reconnect, the loop has asked for exactly `n` backoff sleeps
/// and exactly `n` reconnect attempts — one sleep before each attempt and
/// not one attempt more — and normal dispatch resumes: the loop is
/// draining on the connection `n` generations on, and the next frame the
/// peer sends raises the open flag again and is dispatched (shown exactly
/// for raw mode).
pub proof fn lemma_n_failures_n_reconnects(s: ReceiveLoop, n: nat, f: Frame)
    requires
        s.phase == LoopPhase::Draining,
        !s.awaiting_decode,
        s.ws.generation + n <= u64::MAX,
    ensures
        ({
            let tr = emitted_trace(s, failure_rounds(n));
            let s2 = run_events(s, failure_rounds(n));
            &&& count_connects(tr) == n
            &&& count_backoffs(tr) == n
            &&& count_read_errors(tr) == n
            &&& s2.phase == LoopPhase::Draining
            &&& !s2.awaiting_decode
            &&& s2.mode == s.mode
            &&& s2.ws.url == s.ws.url
            &&& s2.ws.generation == s.ws.generation + n
            &&& n > 0 ==> !s2.ws.open
            &&& s2.stepped(Event::FrameRead(f)).ws.open
            &&& s.mode == HandlerMode::Raw ==> s2.emitted(Event::FrameRead(f)) == seq![
                Action::InvokeRaw(f),
            ]
        }),
    decreases n,
{
    reveal_with_fuel(count_connects, 6);
    reveal_with_fuel(count_backoffs, 6);
    reveal_with_fuel(count_read_errors, 6);
    if n == 0 {
        assert(failure_rounds(0) =~= Seq::<Event>::empty());
    } else {
        lemma_one_failure_round(s);
        lemma_run_concat(s, failure_round(), failure_rounds((n - 1) as nat));
        let s_mid = run_events(s, failure_round());
        lemma_n_failures_n_reconnects(s_mid, (n - 1) as nat, f);
        lemma_counts_concat(
            emitted_trace(s, failure_round()),
            emitted_trace(s_mid, failure_rounds((n - 1) as nat)),
        );
        let head = emitted_trace(s, failure_round());
        if s.ws.open {
            assert(head =~= seq![
                Action::CloseSend,
                Action::LogReadError,
                Action::StartBackoff,
                Action::Connect,
            ]);
        } else {
            assert(head =~= seq![Action::LogReadError, Action::StartBackoff, Action::Connect]);
        }
        assert(count_connects(head) == 1);
        assert(count_backoffs(head) == 1);
        assert(count_read_errors(head) == 1);
    }
}

/// Law: a reconnect is only ever attempted straight out of a finished
/// backoff sleep — the loop never asks for one in any other situation.
pub proof fn lemma_connect_only_after_backoff(s: ReceiveLoop, e: Event)
    ensures
        s.emitted(e).contains(Action::Connect) ==> s.phase == LoopPhase::Backoff && e
            == Event::SleepDone,
{
}

/// Law: JSON dispatch. While draining in JSON mode, an inbound text frame
/// leads to exactly one decode request with exactly its payload; a
/// successful decode hands the handler exactly one value, a failed one
/// only logs — and either way the connection stands untouched, its open
/// flag up, still draining.
pub proof fn lemma_json_decode_dispatch(s: ReceiveLoop, t: String)
    requires
        s.phase == LoopPhase::Draining,
        !s.awaiting_decode,
        s.mode == HandlerMode::Json,
    ensures
        ({
            let well = seq![Event::FrameRead(Frame::Text(t)), Event::DecodeOk];
            let ill = seq![Event::FrameRead(Frame::Text(t)), Event::DecodeErr];
            &&& emitted_trace(s, well) == seq![Action::Decode(t), Action::InvokeJson]
            &&& emitted_trace(s, ill) == seq![Action::Decode(t), Action::LogDecodeError]
            &&& run_events(s, well) == run_events(s, ill)
            &&& run_events(s, well).phase == LoopPhase::Draining
            &&& run_events(s, well).ws.open
            &&& run_events(s, well).ws.generation == s.ws.generation
        }),
{
    reveal_with_fuel(emitted_trace, 4);
    reveal_with_fuel(run_events, 4);
    let well = seq![Event::FrameRead(Frame::Text(t)), Event::DecodeOk];
    let ill = seq![Event::FrameRead(Frame::Text(t)), Event::DecodeErr];
    let s1 = s.stepped(Event::FrameRead(Frame::Text(t)));
    assert(well.drop_first() =~= seq![Event::DecodeOk]);
    assert(ill.drop_first() =~= seq![Event::DecodeErr]);
    assert(seq![Event::DecodeOk].drop_first() =~= Seq::<Event>::empty());
    assert(seq![Event::DecodeErr].drop_first() =~= Seq::<Event>::empty());
    assert(emitted_trace(s, well) =~= seq![Action::Decode(t), Action::InvokeJson]);
    assert(emitted_trace(s, ill) =~= seq![Action::Decode(t), Action::LogDecodeError]);
    assert(run_events(s, well) == s1.stepped(Event::DecodeOk));
    assert(run_events(s, ill) == s1.stepped(Event::DecodeErr));
}

/// Law: a stopped loop is silent. Once the phase is `Stopped`, any events
/// whatsoever leave the state exactly as it is and emit nothing at all —
/// in particular, the handler is never invoked again.
pub proof fn lemma_stopped_is_silent(s: ReceiveLoop, es: Seq<Event>)
    requires
        s.phase == LoopPhase::Stopped,
    ensures
        run_events(s, es) == s,
        emitted_trace(s, es) == Seq::<Action>::empty(),
    decreases es.len(),
{
    if es.len() > 0 {
        assert(s.stepped(es[0]) == s);
        lemma_stopped_is_silent(s, es.drop_first());
        assert(emitted_trace(s, es) =~= Seq::<Action>::empty());
    }
}

/// Law: disposal halts the loop at once. Processing `Dispose` drops the
/// open flag — so every later submission is discarded — moves the loop to
/// `Stopped`, and from then on no event can make it emit anything again.
pub proof fn lemma_dispose_halts(s: ReceiveLoop, es: Seq<Event>)
    ensures
        s.stepped(Event::Dispose).phase == LoopPhase::Stopped,
        s.phase != LoopPhase::Stopped ==> !s.stepped(Event::Dispose).ws.open,
        run_events(s.stepped(Event::Dispose), es) == s.stepped(Event::Dispose),
        emitted_trace(s.stepped(Event::Dispose), es) == Seq::<Action>::empty(),
{
    lemma_stopped_is_silent(s.stepped(Event::Dispose), es);
}

} // verus!
