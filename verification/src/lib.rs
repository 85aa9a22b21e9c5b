//! Core of a resilient WebSocket client meant to sit inside a reactive UI
//! runtime: a connection handle that gates sends on an open flag and swaps
//! its two stream halves atomically on reconnect, a receive-loop state
//! machine that recovers from read failures with a fixed backoff and
//! decides how each inbound frame is decoded and dispatched, and a
//! registry that keys one handle per UI scope.
//!
//! All I/O (the actual WebSocket, timers, task spawning) lives outside this
//! crate: the library decides, the host performs.

pub mod frame;
pub mod handle;
pub mod laws;
pub mod registry;
pub mod rxloop;

pub use frame::Frame;
pub use handle::DioxusWs;
pub use handle::SendAction;
pub use registry::ContextRegistry;
pub use rxloop::Action;
pub use rxloop::Event;
pub use rxloop::HandlerMode;
pub use rxloop::LoopPhase;
pub use rxloop::ReceiveLoop;
pub use rxloop::BACKOFF_MS;
