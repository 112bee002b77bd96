//! A terminal-application event multiplexer: two producer workers (decoded
//! key input and a periodic tick) feed one unbounded channel, and a single
//! consumer facade hands the merged stream to the caller's main loop.

pub mod channel;
pub mod dispatch;
pub mod event;
pub mod worker;

pub use channel::Disconnected;
pub use dispatch::Events;
pub use dispatch::Producers;
pub use event::Config;
pub use event::Event;
pub use event::Key;
pub use worker::forward_batch;
pub use worker::input_step;
pub use worker::tick_step;
pub use worker::DecodeFailure;
pub use worker::WorkerStatus;
