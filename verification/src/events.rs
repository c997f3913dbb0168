//! The merged input-event stream and the decisions around it: the event
//! type the multiplexer produces, the timing rules it follows, and the
//! main loop's dispatch step. The blocking waits themselves (terminal
//! polling, channel reads) live outside the library; they hand plain
//! values in and take plain values back.

use vstd::prelude::*;
use crate::app::App;
use crate::cursor::{advance_spec, retreat_spec};

verus! {

/// How often the multiplexer emits a tick, in milliseconds.
pub const TICK_RATE_MS: u64 = 200;

/// A decoded key press, as the main loop distinguishes them: the two
/// navigation keys, a printable character, or anything else (ignored).
pub enum KeyInput {
    Char(char),
    Up,
    Down,
    Other,
}

/// One item of the merged event stream: a key press or a periodic tick.
pub enum InputEvent {
    Key(KeyInput),
    Tick,
}

/// How long the multiplexer may block waiting for a key before the next
/// tick is due: the remainder of the tick interval, clamped to zero once
/// the interval has already elapsed.
pub fn poll_timeout(tick_rate_ms: u64, elapsed_ms: u64) -> (timeout: u64)
    ensures
        timeout == if elapsed_ms >= tick_rate_ms { 0int } else { tick_rate_ms - elapsed_ms },
{
    if elapsed_ms >= tick_rate_ms {
        0
    } else {
        tick_rate_ms - elapsed_ms
    }
}

/// Whether a tick is due: the full interval has elapsed since the last one.
pub fn tick_due(tick_rate_ms: u64, elapsed_ms: u64) -> (due: bool)
    ensures
        due == (elapsed_ms >= tick_rate_ms),
{
    elapsed_ms >= tick_rate_ms
}

/// One iteration of the main loop's dispatch: apply the event to the
/// application state and say whether the loop must terminate. Quitting is
/// requested by the character `q` alone; every other event leaves the quit
/// flag as it was, and only the two navigation keys move the selection.
pub fn step(app: &mut App, ev: InputEvent) -> (quit: bool)
    requires
        old(app).wf(),
    ensures
        final(app).wf(),
        final(app).title == old(app).title,
        final(app).tasks.items@ == old(app).tasks.items@,
        quit == final(app).should_quit,
        match ev {
            InputEvent::Key(k) => match k {
                KeyInput::Char(c) => {
                    &&& final(app).tasks == old(app).tasks
                    &&& final(app).should_quit == (c == 'q' || old(app).should_quit)
                },
                KeyInput::Up => {
                    &&& final(app).should_quit == old(app).should_quit
                    &&& final(app).tasks.sel_spec() == retreat_spec(
                        old(app).tasks.sel_spec(),
                        old(app).tasks.items@.len() as int,
                    )
                },
                KeyInput::Down => {
                    &&& final(app).should_quit == old(app).should_quit
                    &&& final(app).tasks.sel_spec() == advance_spec(
                        old(app).tasks.sel_spec(),
                        old(app).tasks.items@.len() as int,
                    )
                },
                KeyInput::Other => *final(app) == *old(app),
            },
            InputEvent::Tick => *final(app) == *old(app),
        },
{
    match ev {
        InputEvent::Key(k) => match k {
            KeyInput::Char(c) => app.on_key(c),
            KeyInput::Up => app.on_up(),
            KeyInput::Down => app.on_down(),
            KeyInput::Other => {},
        },
        InputEvent::Tick => app.on_tick(),
    }
    app.should_quit
}

} // verus!
