//! The context registry: one connection per UI subtree, keyed by an
//! explicit scope identifier.
//!
//! The host calls the provider entry point on every re-render; the
//! registry makes it idempotent, so the creation and loop-spawn sequence
//! runs exactly once per scope and later calls reuse the stored handle.
//! Any descendant of the scope fetches the handle to send messages, and
//! the host feeds the scope's receive-loop events through the registry.

use vstd::prelude::*;

use crate::handle::DioxusWs;
use crate::rxloop::Action;
use crate::rxloop::Event;
use crate::rxloop::HandlerMode;
use crate::rxloop::LoopPhase;
use crate::rxloop::ReceiveLoop;

verus! {

/// One provided scope: its identifier and the connection bound to it.
pub struct ScopeEntry {
    pub scope: u64,
    pub session: ReceiveLoop,
}

/// All live scopes and their connections.
pub struct ContextRegistry {
    pub entries: Vec<ScopeEntry>,
}

/// A session as the provider creates it: a fresh handle for `url`, the
/// given dispatch mode, draining, open flag down.
pub open spec fn fresh_session(sess: ReceiveLoop, url: Seq<char>, mode: HandlerMode) -> bool {
    &&& sess.ws.url@ == url
    &&& !sess.ws.open
    &&& sess.ws.generation == 0
    &&& sess.wf()
    &&& sess.mode == mode
    &&& sess.phase == LoopPhase::Draining
    &&& !sess.awaiting_decode
}

/// What every provider entry point guarantees: a connection is created
/// exactly when the scope had none, an existing one is left exactly as it
/// is, and afterwards the scope is provided either way.
pub open spec fn provider_post(
    pre: ContextRegistry,
    post: ContextRegistry,
    scope: u64,
    url: Seq<char>,
    mode: HandlerMode,
    created: bool,
) -> bool {
    &&& created == !pre.provided(scope)
    &&& post.provided(scope)
    &&& (pre.provided(scope) ==> post == pre)
    &&& (!pre.provided(scope) ==> {
        &&& post.entries@.len() == pre.entries@.len() + 1
        &&& post.entries@.subrange(0, pre.entries@.len() as int) == pre.entries@
        &&& post.entries@.last().scope == scope
        &&& fresh_session(post.entries@.last().session, url, mode)
    })
}

impl ContextRegistry {
    /// No two entries share a scope, so a scope names one connection.
    pub open spec fn wf(self) -> bool {
        forall|i: int, j: int|
            0 <= i < self.entries@.len() && 0 <= j < self.entries@.len() && i != j
                ==> self.entries@[i].scope != self.entries@[j].scope
    }

    /// Some enclosing provider call registered this scope.
    pub open spec fn provided(self, scope: u64) -> bool {
        exists|i: int| 0 <= i < self.entries@.len() && self.entries@[i].scope == scope
    }

    /// Where this scope's entry stands.
    pub open spec fn scope_index(self, scope: u64) -> int {
        choose|i: int| 0 <= i < self.entries@.len() && self.entries@[i].scope == scope
    }

    /// The session registered for this scope.
    pub open spec fn session_at(self, scope: u64) -> ReceiveLoop {
        self.entries@[self.scope_index(scope)].session
    }

    /// An empty registry: nothing provided yet.
    pub fn new() -> (r: ContextRegistry)
        ensures
            r.entries@.len() == 0,
            r.wf(),
    {
        ContextRegistry { entries: Vec::new() }
    }

    /// The entry index for `scope`, if the scope is provided.
    fn find(&self, scope: u64) -> (r: Option<usize>)
        ensures
            match r {
                Some(i) => i < self.entries@.len() && self.entries@[i as int].scope == scope,
                None => !self.provided(scope),
            },
    {
        let mut i: usize = 0;
        while i < self.entries.len()
            invariant
                i <= self.entries@.len(),
                forall|k: int| 0 <= k < i ==> self.entries@[k].scope != scope,
            decreases self.entries@.len() - i,
        {
            if self.entries[i].scope == scope {
                return Some(i);
            }
            i = i + 1;
        }
        None
    }

    /// Register a connection for `scope` unless one is already there.
    fn provide(&mut self, scope: u64, url: &str, mode: HandlerMode) -> (created: bool)
        requires
            old(self).wf(),
        ensures
            final(self).wf(),
            provider_post(*old(self), *final(self), scope, url@, mode, created),
    {
        match self.find(scope) {
            Some(_) => false,
            None => {
                self.entries.push(ScopeEntry { scope, session: ReceiveLoop::new(url, mode) });
                proof {
                    assert(self.entries@.subrange(0, old(self).entries@.len() as int) =~= old(
                        self,
                    ).entries@);
                    assert(forall|k: int|
                        0 <= k < old(self).entries@.len() ==> old(self).entries@[k].scope
                            != scope);
                }
                true
            },
        }
    }

    /// Provide a connection to `url` for this scope, dispatching every
    /// inbound frame raw. Idempotent per scope: only the first call per
    /// scope creates anything, and `created` says whether this call did —
    /// the host spawns the receive loop exactly when it is true.
    pub fn use_ws_context_provider(&mut self, scope: u64, url: &str) -> (created: bool)
        requires
            old(self).wf(),
        ensures
            final(self).wf(),
            provider_post(*old(self), *final(self), scope, url@, HandlerMode::Raw, created),
    {
        self.provide(scope, url, HandlerMode::Raw)
    }

    /// As [`use_ws_context_provider`](Self::use_ws_context_provider), but
    /// text frames are dispatched as strings and bytes frames dropped.
    pub fn use_ws_context_provider_text(&mut self, scope: u64, url: &str) -> (created: bool)
        requires
            old(self).wf(),
        ensures
            final(self).wf(),
            provider_post(*old(self), *final(self), scope, url@, HandlerMode::Text, created),
    {
        self.provide(scope, url, HandlerMode::Text)
    }

    /// As [`use_ws_context_provider`](Self::use_ws_context_provider), but
    /// text frames are decoded from JSON before dispatch and bytes frames
    /// dropped.
    pub fn use_ws_context_provider_json(&mut self, scope: u64, url: &str) -> (created: bool)
        requires
            old(self).wf(),
        ensures
            final(self).wf(),
            provider_post(*old(self), *final(self), scope, url@, HandlerMode::Json, created),
    {
        self.provide(scope, url, HandlerMode::Json)
    }

    /// The handle registered for this scope, for sending messages and
    /// reading connection status. Consuming a scope that no provider call
    /// registered is a programming error, not a runtime condition: the
    /// caller must know the scope is provided.
    pub fn use_ws_context(&self, scope: u64) -> (ws: &DioxusWs)
        requires
            self.wf(),
            self.provided(scope),
        ensures
            *ws == self.session_at(scope).ws,
    {
        let mut i: usize = 0;
        loop
            invariant
                self.wf(),
                self.provided(scope),
                i <= self.entries@.len(),
                exists|k: int|
                    i <= k < self.entries@.len() && self.entries@[k].scope == scope,
            decreases self.entries@.len() - i,
        {
            if self.entries[i].scope == scope {
                proof {
                    let j = self.scope_index(scope);
                    assert(0 <= j < self.entries@.len() && self.entries@[j].scope == scope);
                    assert(i as int == j);
                }
                return &self.entries[i].session.ws;
            }
            proof {
                let k = choose|k: int|
                    i <= k < self.entries@.len() && self.entries@[k].scope == scope;
                assert(i < self.entries@.len());
            }
            let n = self.entries.len();
            assert(i < n);
            i = i + 1;
        }
    }

    /// Feed one event to this scope's receive loop and hand back what it
    /// asks the host to do. Only that scope's session moves, by exactly
    /// one [`step`](ReceiveLoop::step).
    pub fn step_session(&mut self, scope: u64, e: Event) -> (acts: Vec<Action>)
        requires
            old(self).wf(),
            old(self).provided(scope),
        ensures
            final(self).wf(),
            final(self).entries@.len() == old(self).entries@.len(),
            forall|k: int|
                0 <= k < old(self).entries@.len() ==> final(self).entries@[k].scope == old(
                    self,
                ).entries@[k].scope,
            forall|k: int|
                0 <= k < old(self).entries@.len() && old(self).entries@[k].scope != scope
                    ==> final(self).entries@[k] == old(self).entries@[k],
            final(self).session_at(scope) == old(self).session_at(scope).stepped(e),
            acts@ == old(self).session_at(scope).emitted(e),
    {
        let mut i: usize = 0;
        loop
            invariant
                self.wf(),
                self.provided(scope),
                *self == *old(self),
                i <= self.entries@.len(),
                exists|k: int|
                    i <= k < self.entries@.len() && self.entries@[k].scope == scope,
            decreases self.entries@.len() - i,
        {
            if self.entries[i].scope == scope {
                proof {
                    let j = self.scope_index(scope);
                    assert(0 <= j < self.entries@.len() && self.entries@[j].scope == scope);
                    assert(i as int == j);
                }
                let entry = &mut self.entries[i];
                let acts = entry.session.step(e);
                proof {
                    let j2 = self.scope_index(scope);
                    assert(0 <= j2 < self.entries@.len() && self.entries@[j2].scope == scope);
                    assert(i as int == j2);
                }
                return acts;
            }
            proof {
                let k = choose|k: int|
                    i <= k < self.entries@.len() && self.entries@[k].scope == scope;
                assert(i < self.entries@.len());
            }
            let n = self.entries.len();
            assert(i < n);
            i = i + 1;
        }
    }

    /// Tear down this scope's connection because its subtree is being
    /// disposed: the loop stops, the open flag drops so later submissions
    /// are discarded, and the returned actions (at most a best-effort
    /// close of the send half) are the last it will ever emit. Disposing a
    /// scope that was never provided does nothing.
    pub fn dispose(&mut self, scope: u64) -> (acts: Vec<Action>)
        requires
            old(self).wf(),
        ensures
            final(self).wf(),
            !old(self).provided(scope) ==> *final(self) == *old(self) && acts@ == Seq::<
                Action,
            >::empty(),
            old(self).provided(scope) ==> {
                &&& final(self).session_at(scope) == old(self).session_at(scope).stepped(
                    Event::Dispose,
                )
                &&& final(self).session_at(scope).phase == LoopPhase::Stopped
                &&& acts@ == old(self).session_at(scope).emitted(Event::Dispose)
            },
    {
        match self.find(scope) {
            None => Vec::new(),
            Some(_) => self.step_session(scope, Event::Dispose),
        }
    }
}

} // verus!
