//! A non-blocking request/response broker between a foreground loop and one
//! background task.
//!
//! The foreground owns a request sender and a response receiver; the broker
//! owns the other two ends. Requests travel one way, responses the other, each
//! over an unbounded FIFO channel. The foreground never waits: it submits
//! without blocking and looks for at most one finished response per turn.
//!
//! * [`event`]: the messages.
//! * [`channel`]: sending and looking without waiting, over
//!   `futures::channel::mpsc`.
//! * [`broker`]: the broker's decisions as a step function; the task that
//!   awaits and sleeps is the caller's.
//! * [`poller`]: the foreground's submit and drain-one.
//! * [`pipeline`]: a model of both sides and the two queues, and what is
//!   proved of every run of it.

pub mod broker;
pub mod channel;
pub mod event;
pub mod pipeline;
pub mod poller;
