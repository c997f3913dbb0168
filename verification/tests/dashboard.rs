use termline::app::App;
use termline::cursor::StatefulList;
use termline::events::{poll_timeout, step, tick_due, InputEvent, KeyInput, TICK_RATE_MS};

fn fresh_app() -> App {
    App::new("Termline")
}

#[test]
fn new_app_holds_the_fixed_tasks() {
    let app = fresh_app();
    assert_eq!(app.title, "Termline");
    assert!(!app.should_quit);
    assert_eq!(app.tasks.selected, None);
    assert_eq!(app.tasks.items.len(), 24);
    assert_eq!(app.tasks.items[0], "Item1");
    assert_eq!(app.tasks.items[9], "Item10");
    assert_eq!(app.tasks.items[23], "Item24");
}

#[test]
fn advance_cycle_returns_to_start() {
    // Advancing len(items) times restores the selected index.
    let mut list = StatefulList::with_items(vec![10u8, 20, 30, 40, 50]);
    list.next();
    list.next();
    list.next();
    assert_eq!(list.selected, Some(2));
    for _ in 0..5 {
        list.next();
    }
    assert_eq!(list.selected, Some(2));
}

#[test]
fn retreat_is_inverse_of_advance() {
    let mut list = StatefulList::with_items(vec![1u8, 2, 3, 4]);
    list.next(); // Some(0)
    for start in 0..4usize {
        assert_eq!(list.selected, Some(start));
        list.next();
        list.previous();
        assert_eq!(list.selected, Some(start));
        list.previous();
        list.next();
        assert_eq!(list.selected, Some(start));
        list.next(); // move to the next start
    }
}

#[test]
fn empty_cursor_never_selects() {
    let mut list: StatefulList<String> = StatefulList::with_items(Vec::new());
    list.next();
    assert_eq!(list.selected, None);
    list.previous();
    assert_eq!(list.selected, None);
    list.next();
    list.next();
    assert_eq!(list.selected, None);
}

#[test]
fn quit_key_sets_flag_from_any_cursor_state() {
    let mut app = fresh_app();
    app.on_key('q');
    assert!(app.should_quit);

    let mut app2 = fresh_app();
    app2.on_down();
    app2.on_down();
    app2.on_up();
    app2.on_key('q');
    assert!(app2.should_quit);
    assert_eq!(app2.tasks.selected, Some(0));
}

#[test]
fn other_keys_change_nothing() {
    let mut app = fresh_app();
    app.on_down(); // selected = Some(0)
    for c in ['a', 'z', 'Q', ' ', '7', '\n'] {
        app.on_key(c);
        assert!(!app.should_quit);
        assert_eq!(app.tasks.selected, Some(0));
    }
}

#[test]
fn twenty_four_item_walkthrough() {
    // From nothing selected: one advance selects 0, 23 more reach 23,
    // one more wraps to 0.
    let mut app = fresh_app();
    app.on_down();
    assert_eq!(app.tasks.selected, Some(0));
    for _ in 0..23 {
        app.on_down();
    }
    assert_eq!(app.tasks.selected, Some(23));
    app.on_down();
    assert_eq!(app.tasks.selected, Some(0));
}

#[test]
fn retreat_from_zero_wraps_backward() {
    let mut app = fresh_app();
    app.on_down();
    assert_eq!(app.tasks.selected, Some(0));
    app.on_up();
    assert_eq!(app.tasks.selected, Some(23));
}

#[test]
fn tick_leaves_state_unchanged() {
    let mut app = fresh_app();
    app.on_down();
    app.on_tick();
    assert!(!app.should_quit);
    assert_eq!(app.tasks.selected, Some(0));
    assert_eq!(app.tasks.items.len(), 24);
}

#[test]
fn step_dispatches_each_event() {
    let mut app = fresh_app();
    assert!(!step(&mut app, InputEvent::Tick));
    assert_eq!(app.tasks.selected, None);
    assert!(!step(&mut app, InputEvent::Key(KeyInput::Down)));
    assert_eq!(app.tasks.selected, Some(0));
    assert!(!step(&mut app, InputEvent::Key(KeyInput::Up)));
    assert_eq!(app.tasks.selected, Some(23));
    assert!(!step(&mut app, InputEvent::Key(KeyInput::Other)));
    assert_eq!(app.tasks.selected, Some(23));
    assert!(!step(&mut app, InputEvent::Key(KeyInput::Char('x'))));
    assert!(!app.should_quit);
    assert!(step(&mut app, InputEvent::Key(KeyInput::Char('q'))));
    assert!(app.should_quit);
    assert_eq!(app.tasks.selected, Some(23));
}

#[test]
fn poll_timeout_counts_down_and_clamps() {
    assert_eq!(poll_timeout(200, 0), 200);
    assert_eq!(poll_timeout(200, 50), 150);
    assert_eq!(poll_timeout(200, 200), 0);
    assert_eq!(poll_timeout(200, 1000), 0);
}

#[test]
fn tick_due_at_the_interval() {
    assert!(!tick_due(200, 0));
    assert!(!tick_due(200, 199));
    assert!(tick_due(200, 200));
    assert!(tick_due(200, 777));
}

#[test]
fn five_ticks_per_simulated_second() {
    // The multiplexer's decisions driven by a virtual clock with no key
    // events: over one second at a 200 ms interval, exactly five ticks.
    assert_eq!(TICK_RATE_MS, 200);
    let mut now: u64 = 0;
    let mut last_tick: u64 = 0;
    let mut ticks: u32 = 0;
    while now < 1000 {
        // No key arrives, so the wait runs for the whole timeout.
        let timeout = poll_timeout(TICK_RATE_MS, now - last_tick);
        now += timeout.max(1);
        if tick_due(TICK_RATE_MS, now - last_tick) {
            ticks += 1;
            last_tick = now;
        }
    }
    assert_eq!(ticks, 5);
}
