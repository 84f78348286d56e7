//! A bridge between a terminal's raw input stream and an application's
//! event-consumption loop.
//!
//! The core is the [`bridge::Bridge`]: it models one polling task that
//! repeatedly takes the outcome of a blocking terminal read, keeps the
//! key-press events, discards everything else, and buffers what it kept in a
//! bounded FIFO queue that the consumer drains with a non-blocking receive.
//! A one-shot shutdown signal lets the owner stop the polling task
//! cooperatively.
//!
//! Reading the terminal itself, and scheduling the polling task, are the
//! caller's business: the caller runs the loop, hands each read outcome to
//! [`bridge::Bridge::feed`], and drains the queue with
//! [`bridge::Bridge::try_receive`].

pub mod bridge;
pub mod event;
pub mod queue;
pub mod shutdown;

pub use bridge::Bridge;
pub use bridge::RecvStatus;
pub use bridge::StepStatus;
pub use event::KeyEvent;
pub use event::KeyEventKind;
pub use event::ReadOutcome;
pub use event::TermEvent;
pub use shutdown::SignalStatus;
