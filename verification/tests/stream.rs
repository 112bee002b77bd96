use tui_events::{
    forward_batch, input_step, tick_step, Config, DecodeFailure, Disconnected, Event, Events, Key,
    WorkerStatus,
};

#[test]
fn default_config_is_q_at_250ms() {
    let c = Config::default();
    assert_eq!(c.exit_key, Key::Char('q'));
    assert_eq!(c.tick_rate_ms, 250);
}

#[test]
fn with_config_returns_and_carries_the_config() {
    let cfg = Config {
        exit_key: Key::Esc,
        tick_rate_ms: 50,
    };
    let (_events, producers) = Events::with_config(cfg);
    assert_eq!(producers.config, cfg);
}

#[test]
fn new_uses_the_default_config() {
    let (_events, producers) = Events::new();
    assert_eq!(producers.config, Config::default());
}

#[test]
fn inputs_arrive_in_their_original_order() {
    let (events, producers) = Events::new();
    let keys = [Key::Char('a'), Key::Char('b'), Key::Char('c')];
    for k in keys {
        assert_eq!(input_step(&producers.input, Ok(k)), WorkerStatus::Continue);
    }
    for k in keys {
        assert_eq!(events.next(), Ok(Event::Input(k)));
    }
}

#[test]
fn malformed_unit_between_valid_ones_is_invisible() {
    let (events, producers) = Events::new();
    assert_eq!(
        input_step(&producers.input, Ok(Key::Char('x'))),
        WorkerStatus::Continue
    );
    assert_eq!(
        input_step(&producers.input, Err(DecodeFailure)),
        WorkerStatus::Continue
    );
    assert_eq!(
        input_step(&producers.input, Ok(Key::Char('y'))),
        WorkerStatus::Continue
    );
    drop(producers);
    assert_eq!(events.next(), Ok(Event::Input(Key::Char('x'))));
    assert_eq!(events.next(), Ok(Event::Input(Key::Char('y'))));
    assert_eq!(events.next(), Err(Disconnected));
}

#[test]
fn forward_batch_skips_failures_and_keeps_order() {
    let noisy = vec![
        Ok(Key::Char('x')),
        Err(DecodeFailure),
        Ok(Key::Char('y')),
    ];
    let clean = vec![Ok(Key::Char('x')), Ok(Key::Char('y'))];
    let evs = forward_batch(&noisy);
    assert_eq!(
        evs,
        vec![Event::Input(Key::Char('x')), Event::Input(Key::Char('y'))]
    );
    assert_eq!(evs, forward_batch(&clean));
}

#[test]
fn forward_batch_of_failures_alone_is_empty() {
    let units = vec![Err(DecodeFailure), Err(DecodeFailure)];
    assert_eq!(forward_batch(&units), vec![]);
}

#[test]
fn dropped_dispatcher_stops_both_workers() {
    let (events, producers) = Events::new();
    drop(events);
    assert_eq!(
        input_step(&producers.input, Ok(Key::Char('a'))),
        WorkerStatus::Stop
    );
    assert_eq!(tick_step(&producers.tick), WorkerStatus::Stop);
}

#[test]
fn next_after_both_workers_gone_is_disconnected() {
    let (events, producers) = Events::with_config(Config::default());
    drop(producers);
    assert_eq!(events.next(), Err(Disconnected));
}

#[test]
fn buffered_events_survive_worker_shutdown() {
    let (events, producers) = Events::new();
    assert_eq!(tick_step(&producers.tick), WorkerStatus::Continue);
    drop(producers);
    assert_eq!(events.next(), Ok(Event::Tick));
    assert_eq!(events.next(), Err(Disconnected));
}

#[test]
fn input_worker_gone_still_ticks() {
    // The fatal-startup degradation: with no input worker the consumer
    // still observes the heartbeat.
    let (events, producers) = Events::new();
    drop(producers.input);
    assert_eq!(tick_step(&producers.tick), WorkerStatus::Continue);
    assert_eq!(events.next(), Ok(Event::Tick));
}

#[test]
fn every_key_kind_is_carried_through() {
    let keys = [
        Key::Backspace,
        Key::Up,
        Key::Down,
        Key::F(5),
        Key::Char('z'),
        Key::Alt('x'),
        Key::Ctrl('c'),
        Key::Null,
        Key::Esc,
    ];
    let (events, producers) = Events::new();
    for k in keys {
        assert_eq!(input_step(&producers.input, Ok(k)), WorkerStatus::Continue);
    }
    for k in keys {
        assert_eq!(events.next(), Ok(Event::Input(k)));
    }
}
