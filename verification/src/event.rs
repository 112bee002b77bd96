use vstd::prelude::*;

verus! {

/// One event of the merged stream: either a decoded key press forwarded by
/// the input worker, or the periodic heartbeat emitted by the tick worker.
#[derive(Clone, Copy, Debug, PartialEq, Eq)]
pub enum Event<I> {
    Input(I),
    Tick,
}

/// A decoded terminal key, held as plain data so that contracts can speak of
/// it. The stream core never interprets a key: it only carries keys from the
/// input worker to the consumer, and surfaces `exit_key` for the caller to
/// compare against.
#[derive(Clone, Copy, Debug, PartialEq, Eq)]
pub enum Key {
    Backspace,
    Left,
    ShiftLeft,
    AltLeft,
    CtrlLeft,
    Right,
    ShiftRight,
    AltRight,
    CtrlRight,
    Up,
    ShiftUp,
    AltUp,
    CtrlUp,
    Down,
    ShiftDown,
    AltDown,
    CtrlDown,
    Home,
    CtrlHome,
    End,
    CtrlEnd,
    PageUp,
    PageDown,
    BackTab,
    Delete,
    Insert,
    /// A function key, 1 through 12.
    F(u8),
    /// A plain character.
    Char(char),
    /// A character with the Alt modifier.
    Alt(char),
    /// A character with the Ctrl modifier.
    Ctrl(char),
    /// The null byte.
    Null,
    Esc,
}

/// The immutable configuration of the event stream: the key on which the
/// caller intends to quit (surfaced only, never acted on here) and the tick
/// interval in milliseconds.
#[derive(Clone, Copy, Debug, PartialEq, Eq)]
pub struct Config {
    pub exit_key: Key,
    pub tick_rate_ms: u64,
}

impl Default for Config {
    /// The stock configuration: quit on 'q', tick every 250 milliseconds.
    fn default() -> (c: Self)
        ensures
            c.exit_key == Key::Char('q'),
            c.tick_rate_ms == 250,
    {
        Config { exit_key: Key::Char('q'), tick_rate_ms: 250 }
    }
}

} // verus!
