//! The session: mode state machine and input dispatcher.
//!
//! A `Session` is the single mutable state of a run: the task store, the
//! current mode and the in-progress input buffer. `step` consumes one key
//! event, applies the resulting mutation or mode transition, and reports
//! whether the run is over. Every key that matches no command of the current
//! mode is a defined no-op, never a failure.

use vstd::prelude::*;

use crate::key::{FormAction, Key};
use crate::store::{
    delete_spec, push_task_spec, select_down_spec, select_up_spec, store_wf, toggle_spec,
    update_description_spec, StoreView, TaskStore,
};

verus! {

/// Relies on `String::push` of std: appends the given character to the end
/// of the string.
pub assume_specification[ String::push ](s: &mut String, ch: char)
    ensures
        final(s)@ == old(s)@.push(ch),
;

/// Relies on `String::pop` of std: removes and returns the last character,
/// or returns `None` and leaves the string untouched when it is empty.
pub assume_specification[ String::pop ](s: &mut String) -> (r: Option<char>)
    ensures
        old(s)@.len() == 0 ==> r is None && final(s)@ == old(s)@,
        old(s)@.len() > 0 ==> r == Some(old(s)@.last()) && final(s)@ == old(s)@.drop_last(),
;

/// The interaction mode: list navigation, or one of the two text forms.
/// `Update` records the index of the task being edited, fixed at the moment
/// the form was opened.
#[derive(Clone, Copy, Debug)]
pub enum Mode {
    List,
    AddNew,
    Update { target: usize },
}

/// The whole application state of one run.
#[derive(Debug)]
pub struct Session {
    pub store: TaskStore,
    pub mode: Mode,
    pub input: String,
}

/// Mathematical image of a `Session`.
#[verifier::ext_equal]
pub struct SessionView {
    pub store: StoreView,
    pub mode: Mode,
    pub input: Seq<char>,
}

impl View for Session {
    type V = SessionView;

    open spec fn view(&self) -> SessionView {
        SessionView { store: self.store@, mode: self.mode, input: self.input@ }
    }
}

/// The selection is valid, and in `Update` mode the recorded target index is
/// a valid index into the task list.
pub open spec fn session_wf(s: SessionView) -> bool {
    &&& store_wf(s.store)
    &&& (s.mode matches Mode::Update { target } ==> target < s.store.tasks.len())
}

/// How one key edits a form buffer: a character is appended at the end, a
/// backspace removes the last character and leaves an empty buffer empty,
/// every other key leaves the buffer as it is.
pub open spec fn form_edit_spec(input: Seq<char>, k: Key) -> Seq<char> {
    match k {
        Key::Char(c) => input.push(c),
        Key::Backspace => if input.len() == 0 { input } else { input.drop_last() },
        _ => input,
    }
}

/// What a key means while a form is open: enter submits, escape cancels,
/// everything else keeps the form open.
pub open spec fn form_action_spec(k: Key) -> FormAction {
    match k {
        Key::Enter => FormAction::Submit,
        Key::Esc => FormAction::Escape,
        _ => FormAction::NoChange,
    }
}

/// Whether a key quits the run from list mode.
pub open spec fn list_quit_spec(k: Key) -> bool {
    match k {
        Key::Esc => true,
        Key::Char(c) => c == 'q',
        _ => false,
    }
}

/// One key applied in list mode: navigation clamps at the boundaries, enter
/// toggles the selected task, 'A' opens the add form with a cleared buffer,
/// 'E' opens the edit form pre-filled with the selected description, 'D'
/// deletes the selected task, and any other key changes nothing.
pub open spec fn list_step_spec(s: SessionView, k: Key) -> SessionView {
    match k {
        Key::Enter => SessionView { store: toggle_spec(s.store), ..s },
        Key::Up => SessionView { store: select_up_spec(s.store), ..s },
        Key::Down => SessionView { store: select_down_spec(s.store), ..s },
        Key::Char(c) => if c == 'A' {
            SessionView { mode: Mode::AddNew, input: Seq::empty(), ..s }
        } else if c == 'E' {
            match s.store.selected {
                Some(i) => if 0 <= i < s.store.tasks.len() {
                    SessionView {
                        mode: Mode::Update { target: i as usize },
                        input: s.store.tasks[i].description,
                        ..s
                    }
                } else {
                    s
                },
                None => s,
            }
        } else if c == 'D' {
            SessionView { store: delete_spec(s.store), ..s }
        } else if c == 'k' {
            SessionView { store: select_up_spec(s.store), ..s }
        } else if c == 'j' {
            SessionView { store: select_down_spec(s.store), ..s }
        } else {
            s
        },
        _ => s,
    }
}

/// One key applied while the add form is open: submit appends a fresh task
/// whose description is the buffer and returns to list mode with a cleared
/// buffer; cancel returns to list mode with a cleared buffer and an untouched
/// store; any other key edits the buffer.
pub open spec fn add_new_step_spec(s: SessionView, k: Key) -> SessionView {
    match form_action_spec(k) {
        FormAction::Submit => SessionView {
            store: push_task_spec(s.store, s.input),
            mode: Mode::List,
            input: Seq::empty(),
        },
        FormAction::Escape => SessionView { mode: Mode::List, input: Seq::empty(), ..s },
        FormAction::NoChange => SessionView { input: form_edit_spec(s.input, k), ..s },
    }
}

/// One key applied while the edit form is open: submit overwrites the
/// description of the recorded target task (skipped if the index is no longer
/// valid) and returns to list mode with a cleared buffer; cancel returns to
/// list mode with a cleared buffer and an untouched store; any other key
/// edits the buffer.
pub open spec fn update_step_spec(s: SessionView, k: Key, target: usize) -> SessionView {
    match form_action_spec(k) {
        FormAction::Submit => SessionView {
            store: update_description_spec(s.store, target as int, s.input),
            mode: Mode::List,
            input: Seq::empty(),
        },
        FormAction::Escape => SessionView { mode: Mode::List, input: Seq::empty(), ..s },
        FormAction::NoChange => SessionView { input: form_edit_spec(s.input, k), ..s },
    }
}

/// One key applied to the whole session, with the flag that tells whether the
/// run is over. Only list mode can quit.
pub open spec fn step_spec(s: SessionView, k: Key) -> (SessionView, bool) {
    match s.mode {
        Mode::List => (list_step_spec(s, k), list_quit_spec(k)),
        Mode::AddNew => (add_new_step_spec(s, k), false),
        Mode::Update { target } => (update_step_spec(s, k, target), false),
    }
}

/// A whole run: the session after a sequence of key events, applied in
/// arrival order.
pub open spec fn run_spec(s: SessionView, ks: Seq<Key>) -> SessionView
    decreases ks.len(),
{
    if ks.len() == 0 {
        s
    } else {
        run_spec(step_spec(s, ks[0]).0, ks.drop_first())
    }
}

impl Session {
    /// A fresh session: empty store, list mode, empty buffer.
    pub fn new() -> (r: Session)
        ensures
            session_wf(r@),
            r@.store.tasks.len() == 0,
            r@.store.selected is None,
            r@.mode is List,
            r@.input.len() == 0,
    {
        Session { store: TaskStore::new(), mode: Mode::List, input: String::new() }
    }

    /// Edit the buffer with one key and say what the key means for the open
    /// form. The store and the mode are never touched here.
    pub fn handle_input_form(&mut self, key: Key) -> (r: FormAction)
        ensures
            final(self)@.store == old(self)@.store,
            final(self)@.mode == old(self)@.mode,
            final(self)@.input == form_edit_spec(old(self)@.input, key),
            r == form_action_spec(key),
    {
        match key {
            Key::Char(c) => {
                self.input.push(c);
                FormAction::NoChange
            },
            Key::Backspace => {
                let _ = self.input.pop();
                FormAction::NoChange
            },
            Key::Enter => FormAction::Submit,
            Key::Esc => FormAction::Escape,
            _ => FormAction::NoChange,
        }
    }

    /// Apply one key in list mode; the result tells whether the run is over.
    pub fn handle_key_list_events(&mut self, key: Key) -> (r: bool)
        requires
            session_wf(old(self)@),
            old(self)@.mode is List,
        ensures
            session_wf(final(self)@),
            final(self)@ == list_step_spec(old(self)@, key),
            r == list_quit_spec(key),
    {
        match key {
            Key::Enter => {
                self.store.toggle_selected();
                false
            },
            Key::Esc => true,
            Key::Up => {
                self.store.select_up();
                false
            },
            Key::Down => {
                self.store.select_down();
                false
            },
            Key::Char(c) => {
                if c == 'q' {
                    true
                } else if c == 'A' {
                    self.mode = Mode::AddNew;
                    self.input = String::new();
                    false
                } else if c == 'E' {
                    match self.store.selected {
                        Some(i) => {
                            self.input = self.store.tasks[i].description.clone();
                            self.mode = Mode::Update { target: i };
                        },
                        None => {},
                    }
                    false
                } else if c == 'D' {
                    self.store.delete_selected();
                    false
                } else if c == 'k' {
                    self.store.select_up();
                    false
                } else if c == 'j' {
                    self.store.select_down();
                    false
                } else {
                    false
                }
            },
            _ => false,
        }
    }

    /// Apply one key to the session, whatever the mode, and report whether
    /// the run is over. This is the whole dispatch of one loop iteration.
    pub fn step(&mut self, key: Key) -> (quit: bool)
        requires
            session_wf(old(self)@),
        ensures
            session_wf(final(self)@),
            final(self)@ == step_spec(old(self)@, key).0,
            quit == step_spec(old(self)@, key).1,
    {
        match self.mode {
            Mode::AddNew => {
                match self.handle_input_form(key) {
                    FormAction::Submit => {
                        let description = self.input.clone();
                        self.store.push_task(description);
                        self.mode = Mode::List;
                        self.input = String::new();
                    },
                    FormAction::Escape => {
                        self.mode = Mode::List;
                        self.input = String::new();
                    },
                    FormAction::NoChange => {},
                }
                false
            },
            Mode::Update { target } => {
                match self.handle_input_form(key) {
                    FormAction::Submit => {
                        let description = self.input.clone();
                        self.store.update_description(target, description);
                        self.mode = Mode::List;
                        self.input = String::new();
                    },
                    FormAction::Escape => {
                        self.mode = Mode::List;
                        self.input = String::new();
                    },
                    FormAction::NoChange => {},
                }
                false
            },
            Mode::List => self.handle_key_list_events(key),
        }
    }
}

/// One step keeps the session well formed: the selection and, in edit mode,
/// the recorded target index stay valid.
pub proof fn lemma_step_preserves_wf(s: SessionView, k: Key)
    requires
        session_wf(s),
    ensures
        session_wf(step_spec(s, k).0),
{
}

/// Law: across any sequence of key events — any interleaving of add, delete
/// and navigation — the selection is always either absent or a valid index
/// into the task store.
pub proof fn lemma_selection_always_valid(s: SessionView, ks: Seq<Key>)
    requires
        session_wf(s),
    ensures
        session_wf(run_spec(s, ks)),
        store_wf(run_spec(s, ks).store),
    decreases ks.len(),
{
    if ks.len() > 0 {
        lemma_step_preserves_wf(s, ks[0]);
        lemma_selection_always_valid(step_spec(s, ks[0]).0, ks.drop_first());
    }
}

/// Law: cancelling a form never mutates the task store, whatever the buffer
/// holds at cancel time; the session returns to list mode with a cleared
/// buffer.
pub proof fn lemma_cancel_preserves_store(s: SessionView)
    requires
        !(s.mode is List),
    ensures
        step_spec(s, Key::Esc).0.store == s.store,
        step_spec(s, Key::Esc).0.mode is List,
        step_spec(s, Key::Esc).0.input.len() == 0,
        step_spec(s, Key::Esc).1 == false,
{
}

/// Law: a backspace on an empty buffer in either form mode leaves the whole
/// session exactly as it was.
pub proof fn lemma_backspace_empty_noop(s: SessionView)
    requires
        !(s.mode is List),
        s.input.len() == 0,
    ensures
        step_spec(s, Key::Backspace).0 == s,
        step_spec(s, Key::Backspace).1 == false,
{
    assert(step_spec(s, Key::Backspace).0 =~= s);
}

} // verus!
