//! The consumer-facing facade. Construction opens the event channel and
//! hands back one sender per worker; running the workers is the caller's
//! job, since each blocks its own thread (on a terminal read, or on a
//! sleep). Dropping `Events` drops the only receiver, which is the sole
//! shutdown signal: each worker's next send then fails and the worker stops.

use vstd::prelude::*;

use crate::channel::{channel_recv, clone_sender, unbounded_channel, Disconnected};
use crate::event::{Config, Event, Key};

verus! {

/// The consumer end of the event channel. `next` blocks until an event
/// arrives, in channel arrival order: FIFO per producer, interleaving
/// decided by arrival time.
pub struct Events {
    rx: crossbeam_channel::Receiver<Event<Key>>,
}

/// Everything needed to run the two workers that `Events` consumes from: a
/// dedicated sender for each, and the configuration whose `tick_rate_ms`
/// the tick worker is to honor. Dropping both senders without running a
/// worker disconnects the stream.
pub struct Producers {
    pub input: crossbeam_channel::Sender<Event<Key>>,
    pub tick: crossbeam_channel::Sender<Event<Key>>,
    pub config: Config,
}

impl Events {
    /// An event stream under the stock configuration.
    pub fn new() -> (r: (Events, Producers))
        ensures
            r.1.config.exit_key == Key::Char('q'),
            r.1.config.tick_rate_ms == 250,
    {
        Events::with_config(Config::default())
    }

    /// An event stream under the given configuration. Only the channel is
    /// opened here, so the call never blocks; the workers run on the
    /// caller's threads, each fed one of the returned senders.
    pub fn with_config(config: Config) -> (r: (Events, Producers))
        ensures
            r.1.config == config,
    {
        let (tx, rx) = unbounded_channel::<Event<Key>>();
        let input = clone_sender(&tx);
        (Events { rx }, Producers { input, tick: tx, config })
    }

    /// The next event of the merged stream. Blocks until one arrives;
    /// fails with `Disconnected` exactly when both workers have terminated
    /// (dropping their senders) and no buffered event remains.
    pub fn next(&self) -> Result<Event<Key>, Disconnected> {
        channel_recv(&self.rx)
    }
}

} // verus!
