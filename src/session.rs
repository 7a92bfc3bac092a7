//! The interactive session: key bindings, the commands they give, and how
//! activating a row starts a run and a finished run frees the row again.

use vstd::prelude::*;
use crate::catalog::{Release, ReleaseItem, Status};
use crate::list::{StatefulList, rows_of};
use crate::pipeline::{Pipeline, Step, start_spec, advance_spec};

verus! {

/// A key as the session reads it.
#[derive(Clone, Copy, Debug, PartialEq, Eq, Structural)]
pub enum Key {
    Char(char),
    Esc,
    Left,
    Right,
    Up,
    Down,
    Enter,
    Other,
}

/// What the operator asked for.
#[derive(Clone, Copy, Debug, PartialEq, Eq, Structural)]
pub enum Command {
    Quit,
    Unselect,
    Next,
    Previous,
    Activate,
    Top,
    Bottom,
}

/// The key bindings: q or Esc quits, h or Left clears the cursor, j or
/// Down and k or Up move it, l, Right or Enter activate the selected row,
/// g and G jump to the first and the last row.
pub open spec fn command_spec(key: Key) -> Option<Command> {
    match key {
        Key::Char('q') | Key::Esc => Some(Command::Quit),
        Key::Char('h') | Key::Left => Some(Command::Unselect),
        Key::Char('j') | Key::Down => Some(Command::Next),
        Key::Char('k') | Key::Up => Some(Command::Previous),
        Key::Char('l') | Key::Right | Key::Enter => Some(Command::Activate),
        Key::Char('g') => Some(Command::Top),
        Key::Char('G') => Some(Command::Bottom),
        _ => None,
    }
}

/// The command bound to `key`, if any.
pub fn command_for(key: Key) -> (r: Option<Command>)
    ensures
        r == command_spec(key),
{
    match key {
        Key::Char('q') | Key::Esc => Some(Command::Quit),
        Key::Char('h') | Key::Left => Some(Command::Unselect),
        Key::Char('j') | Key::Down => Some(Command::Next),
        Key::Char('k') | Key::Up => Some(Command::Previous),
        Key::Char('l') | Key::Right | Key::Enter => Some(Command::Activate),
        Key::Char('g') => Some(Command::Top),
        Key::Char('G') => Some(Command::Bottom),
        _ => None,
    }
}

/// The text shown beside the list while no row is selected.
pub const NO_SELECTION_TEXT: &'static str = "Select a release on the left side to see its description here...";

/// The list and the run under way, if any.
pub struct App {
    pub items: StatefulList,
    pub pipeline: Option<Pipeline>,
}

/// `items` with the status of row `i` set to `status`.
pub open spec fn with_status(items: Seq<ReleaseItem>, i: int, status: Status) -> Seq<ReleaseItem> {
    items.update(i, ReleaseItem { status, ..items[i] })
}

/// `after` and `r` are what activating the selected row of `before` gives.
/// With no row selected, or while a run is under way, nothing changes and
/// `r` is `None`. Otherwise `r` is the first step of a run for the row: a
/// download, with the row now in progress and holding the pending slot; or,
/// without an installable asset, the end of the run, nothing changed.
pub open spec fn activated(before: App, after: App, r: Option<Step>) -> bool {
    match before.items.selected {
        Some(i) if before.pipeline is None => {
            let (p, step) = start_spec(before.items.items@[i as int].asset_id);
            &&& r == Some(step)
            &&& after.pipeline == p
            &&& match p {
                Some(_) => {
                    &&& after.items.selected == before.items.selected
                    &&& after.items.last_selected == before.items.last_selected
                    &&& after.items.in_progress == Some(i)
                    &&& after.items.items@ == with_status(
                        before.items.items@,
                        i as int,
                        Status::InProgress,
                    )
                },
                None => after == before,
            }
        },
        _ => r is None && after == before,
    }
}

/// `after` and `r` are what reporting `outcome` to `before` gives: with a
/// run under way, its next step, and at the end of the run the row idle
/// again and the pending slot free; with none, nothing changes and `r` is
/// `None`.
pub open spec fn reported(before: App, after: App, outcome: Result<(), String>, r: Option<Step>) -> bool {
    match before.pipeline {
        Some(p) => {
            let (q, step) = advance_spec(p, outcome);
            let i = before.items.in_progress->Some_0;
            &&& r == Some(step)
            &&& after.pipeline == q
            &&& match q {
                Some(_) => after.items == before.items,
                None => {
                    &&& after.settled()
                    &&& after.items.selected == before.items.selected
                    &&& after.items.last_selected == before.items.last_selected
                    &&& after.items.items@ == with_status(
                        before.items.items@,
                        i as int,
                        Status::Idle,
                    )
                },
            }
        },
        None => r is None && after == before,
    }
}

impl App {
    /// The list is well formed, and a run is under way exactly when the
    /// pending slot is set.
    pub open spec fn wf(&self) -> bool {
        &&& self.items.wf()
        &&& (self.items.in_progress is Some <==> self.pipeline is Some)
    }

    /// No run under way and every row idle.
    pub open spec fn settled(&self) -> bool {
        &&& self.items.in_progress is None
        &&& self.pipeline is None
        &&& forall|i: int| 0 <= i < self.items.items@.len()
            ==> (#[trigger] self.items.items@[i]).status == Status::Idle
    }

    /// A session over `releases`: one idle row each, nothing selected, no run.
    pub fn new(releases: &Vec<Release>) -> (r: App)
        ensures
            r.wf(),
            r.settled(),
            rows_of(r.items.items@, releases@),
            r.items.selected is None,
            r.items.last_selected is None,
    {
        App { items: StatefulList::new(releases), pipeline: None }
    }

    /// Sets the status of row `i`, leaving every other field alone.
    fn set_status(&mut self, i: usize, status: Status)
        requires
            i < old(self).items.items@.len(),
        ensures
            final(self).items.items@ == with_status(old(self).items.items@, i as int, status),
            final(self).items.selected == old(self).items.selected,
            final(self).items.last_selected == old(self).items.last_selected,
            final(self).items.in_progress == old(self).items.in_progress,
            final(self).pipeline == old(self).pipeline,
    {
        self.items.items[i].status = status;
    }

    /// Activates the selected row. With no row selected, or while a run is
    /// under way, does nothing and returns `None`. Otherwise starts a run
    /// for the row and returns its first step: a download, after which the
    /// row is in progress and holds the pending slot; or, for a release
    /// without an installable asset, the end of the run with
    /// `NoInstallableAsset`, the row left idle.
    pub fn flip_status(&mut self) -> (r: Option<Step>)
        requires
            old(self).wf(),
        ensures
            final(self).wf(),
            r matches Some(Step::Done(_)) ==> final(self).settled(),
            activated(*old(self), *final(self), r),
    {
        if self.pipeline.is_some() {
            return None;
        }
        match self.items.selected {
            None => None,
            Some(i) => {
                let (p, step) = Pipeline::start(self.items.items[i].asset_id);
                if p.is_some() {
                    self.set_status(i, Status::InProgress);
                    self.items.in_progress = Some(i);
                    self.pipeline = p;
                    assert(self.items.wf());
                }
                Some(step)
            },
        }
    }

    /// Reports the outcome of the action the run under way asked for, and
    /// returns the run's next step. When that step ends the run, the row is
    /// idle again and the pending slot is free. With no run under way, does
    /// nothing and returns `None`.
    pub fn on_outcome(&mut self, outcome: Result<(), String>) -> (r: Option<Step>)
        requires
            old(self).wf(),
        ensures
            final(self).wf(),
            r matches Some(Step::Done(_)) ==> final(self).settled(),
            reported(*old(self), *final(self), outcome, r),
    {
        match self.pipeline {
            None => None,
            Some(p) => {
                let (q, step) = p.advance(outcome);
                if q.is_none() {
                    let i = self.items.in_progress.unwrap();
                    self.set_status(i, Status::Idle);
                    self.items.in_progress = None;
                }
                self.pipeline = q;
                Some(step)
            },
        }
    }

    /// Runs `cmd`: moves or clears the cursor, or activates the selected
    /// row and returns the step that gives. `Quit` changes nothing: ending
    /// the session is the caller's part.
    pub fn handle(&mut self, cmd: Command) -> (r: Option<Step>)
        requires
            old(self).wf(),
        ensures
            final(self).wf(),
            cmd != Command::Activate ==> r is None,
            cmd == Command::Quit ==> *final(self) == *old(self),
            cmd == Command::Next ==> final(self).items == old(self).items.next_state()
                && final(self).pipeline == old(self).pipeline,
            cmd == Command::Previous ==> final(self).items == old(self).items.previous_state()
                && final(self).pipeline == old(self).pipeline,
            cmd == Command::Unselect ==> final(self).items == old(self).items.unselect_state()
                && final(self).pipeline == old(self).pipeline,
            cmd == Command::Top ==> final(self).items == old(self).items.top_state()
                && final(self).pipeline == old(self).pipeline,
            cmd == Command::Bottom ==> final(self).items == old(self).items.bottom_state()
                && final(self).pipeline == old(self).pipeline,
            cmd == Command::Activate ==> activated(*old(self), *final(self), r),
    {
        match cmd {
            Command::Quit => None,
            Command::Unselect => {
                self.items.unselect();
                None
            },
            Command::Next => {
                self.items.next();
                None
            },
            Command::Previous => {
                self.items.previous();
                None
            },
            Command::Activate => self.flip_status(),
            Command::Top => {
                self.go_top();
                None
            },
            Command::Bottom => {
                self.go_bottom();
                None
            },
        }
    }

    /// Puts the cursor on the first row; does nothing on an empty list.
    pub fn go_top(&mut self)
        requires
            old(self).wf(),
        ensures
            final(self).wf(),
            final(self).pipeline == old(self).pipeline,
            final(self).items == old(self).items.top_state(),
    {
        self.items.go_top();
    }

    /// Puts the cursor on the last row; does nothing on an empty list.
    pub fn go_bottom(&mut self)
        requires
            old(self).wf(),
        ensures
            final(self).wf(),
            final(self).pipeline == old(self).pipeline,
            final(self).items == old(self).items.bottom_state(),
    {
        self.items.go_bottom();
    }

    /// The notes of the selected release, or a hint when none is selected.
    pub fn info_text(&self) -> (r: String)
        requires
            self.wf(),
        ensures
            r@ == match self.items.selected {
                Some(i) => self.items.items@[i as int].body@,
                None => NO_SELECTION_TEXT@,
            },
    {
        match self.items.current_item() {
            Some(item) => item.body.clone(),
            None => String::from_str(NO_SELECTION_TEXT),
        }
    }

    /// Whether a run is under way.
    pub fn busy(&self) -> (r: bool)
        ensures
            r == self.pipeline is Some,
    {
        self.pipeline.is_some()
    }
}

} // verus!
