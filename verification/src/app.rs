//! The application state of the dashboard: a title, a quit flag, and a
//! selection cursor over the fixed task list. Raw key input is translated
//! into state mutations here; the quit flag only ever goes from false to
//! true.

use vstd::prelude::*;
use crate::cursor::{StatefulList, advance_spec, retreat_spec};

verus! {

/// The fixed task list shown in the list panel.
pub open spec fn task_names() -> Seq<Seq<char>> {
    seq![
        "Item1"@, "Item2"@, "Item3"@, "Item4"@, "Item5"@, "Item6"@,
        "Item7"@, "Item8"@, "Item9"@, "Item10"@, "Item11"@, "Item12"@,
        "Item13"@, "Item14"@, "Item15"@, "Item16"@, "Item17"@, "Item18"@,
        "Item19"@, "Item20"@, "Item21"@, "Item22"@, "Item23"@, "Item24"@,
    ]
}

/// The fixed task list as owned strings.
fn default_tasks() -> (v: Vec<String>)
    ensures
        v@.map_values(|s: String| s@) == task_names(),
{
    let mut v: Vec<String> = Vec::new();
    v.push("Item1".to_owned());
    v.push("Item2".to_owned());
    v.push("Item3".to_owned());
    v.push("Item4".to_owned());
    v.push("Item5".to_owned());
    v.push("Item6".to_owned());
    v.push("Item7".to_owned());
    v.push("Item8".to_owned());
    v.push("Item9".to_owned());
    v.push("Item10".to_owned());
    v.push("Item11".to_owned());
    v.push("Item12".to_owned());
    v.push("Item13".to_owned());
    v.push("Item14".to_owned());
    v.push("Item15".to_owned());
    v.push("Item16".to_owned());
    v.push("Item17".to_owned());
    v.push("Item18".to_owned());
    v.push("Item19".to_owned());
    v.push("Item20".to_owned());
    v.push("Item21".to_owned());
    v.push("Item22".to_owned());
    v.push("Item23".to_owned());
    v.push("Item24".to_owned());
    proof {
        assert(v@.map_values(|s: String| s@) =~= task_names());
    }
    v
}

/// The application state: owns its title and its task list outright.
pub struct App {
    pub title: String,
    pub should_quit: bool,
    pub tasks: StatefulList<String>,
}

impl App {
    /// The selection cursor's invariant, lifted to the whole state.
    pub open spec fn wf(&self) -> bool {
        self.tasks.wf()
    }

    /// A fresh state: not quitting, the fixed task list, nothing selected.
    pub fn new(title: &str) -> (a: App)
        ensures
            a.wf(),
            a.title@ == title@,
            !a.should_quit,
            a.tasks.selected is None,
            a.tasks.items@.map_values(|s: String| s@) == task_names(),
            a.tasks.items@.len() == task_names().len(),
    {
        App {
            title: title.to_owned(),
            should_quit: false,
            tasks: StatefulList::with_items(default_tasks()),
        }
    }

    /// Move the selection up (backward, with wraparound); nothing else
    /// changes.
    pub fn on_up(&mut self)
        requires
            old(self).wf(),
        ensures
            final(self).wf(),
            final(self).title == old(self).title,
            final(self).should_quit == old(self).should_quit,
            final(self).tasks.items@ == old(self).tasks.items@,
            final(self).tasks.sel_spec() == retreat_spec(
                old(self).tasks.sel_spec(),
                old(self).tasks.items@.len() as int,
            ),
    {
        self.tasks.previous();
    }

    /// Move the selection down (forward, with wraparound); nothing else
    /// changes.
    pub fn on_down(&mut self)
        requires
            old(self).wf(),
        ensures
            final(self).wf(),
            final(self).title == old(self).title,
            final(self).should_quit == old(self).should_quit,
            final(self).tasks.items@ == old(self).tasks.items@,
            final(self).tasks.sel_spec() == advance_spec(
                old(self).tasks.sel_spec(),
                old(self).tasks.items@.len() as int,
            ),
    {
        self.tasks.next();
    }

    /// Dispatch a character key: `q` requests quitting; every other
    /// character is an explicit no-op, so the quit flag and the selection
    /// are left exactly as they were.
    pub fn on_key(&mut self, c: char)
        ensures
            final(self).title == old(self).title,
            final(self).tasks == old(self).tasks,
            final(self).should_quit == (c == 'q' || old(self).should_quit),
    {
        match c {
            'q' => {
                self.should_quit = true;
            },
            _ => {},
        }
    }

    /// Extension point for time-driven updates; currently nothing changes.
    pub fn on_tick(&mut self)
        ensures
            *final(self) == *old(self),
    {
    }
}

} // verus!
