//! Pure description of one terminal frame.
//!
//! `render` maps the session to a `FrameDesc` and never mutates it. The
//! description carries everything the screen shows that depends on the state:
//! the fixed labels, the form buffer, and one row per task with its
//! completion and selection marks. Drawing the description into a real
//! terminal happens outside the library.

use vstd::prelude::*;

use crate::session::{Mode, Session, SessionView};
use crate::store::{StoreView, TaskStore};

verus! {

/// The fixed label of the bordered list container.
pub open spec fn app_title() -> Seq<char> {
    "App Tasks Perro Malo"@
}

/// The centered placeholder shown instead of an empty list.
pub open spec fn empty_placeholder() -> Seq<char> {
    "No hay tareas."@
}

/// The title of the add-task form.
pub open spec fn add_form_title() -> Seq<char> {
    "Ingresa tu tarea:"@
}

/// The title of the edit-task form.
pub open spec fn update_form_title() -> Seq<char> {
    "Edita tu tarea:"@
}

/// One list row: the task's description, struck through when the task is
/// done, and a highlight mark on the selected row.
#[derive(Debug)]
pub struct RowDesc {
    pub text: String,
    pub done: bool,
    pub selected: bool,
}

/// What one frame shows.
#[derive(Debug)]
pub enum FrameDesc {
    /// A bordered text box titled for the open form, holding the buffer.
    Form { title: String, content: String },
    /// The bordered, titled task list, one row per task.
    TaskRows { title: String, rows: Vec<RowDesc> },
    /// The bordered, titled container with the centered placeholder.
    EmptyNotice { title: String, message: String },
}

/// The row at index `i` shows task `i`: its description, its completion
/// flag, and the highlight exactly on the selected index.
pub open spec fn row_ok(v: StoreView, row: RowDesc, i: int) -> bool {
    &&& row.text@ == v.tasks[i].description
    &&& row.done == v.tasks[i].is_done
    &&& (row.selected <==> v.selected == Some(i))
}

/// The frame a list-mode session must show: the placeholder under the fixed
/// title when the store is empty, otherwise one row per task, in order.
pub open spec fn list_frame_ok(v: StoreView, r: FrameDesc) -> bool {
    if v.tasks.len() == 0 {
        &&& r matches FrameDesc::EmptyNotice { title, message }
        &&& title@ == app_title()
        &&& message@ == empty_placeholder()
    } else {
        &&& r matches FrameDesc::TaskRows { title, rows }
        &&& title@ == app_title()
        &&& rows@.len() == v.tasks.len()
        &&& forall|i: int| 0 <= i < v.tasks.len() ==> row_ok(v, #[trigger] rows@[i], i)
    }
}

/// The frame a form-mode session must show: the box titled for the open
/// form, holding exactly the input buffer.
pub open spec fn form_frame_ok(s: SessionView, r: FrameDesc) -> bool {
    &&& r matches FrameDesc::Form { title, content }
    &&& content@ == s.input
    &&& (s.mode is AddNew ==> title@ == add_form_title())
    &&& (s.mode matches Mode::Update { .. } ==> title@ == update_form_title())
}

/// What the frame for a whole session must show, by mode.
pub open spec fn frame_ok(s: SessionView, r: FrameDesc) -> bool {
    match s.mode {
        Mode::List => list_frame_ok(s.store, r),
        Mode::AddNew => form_frame_ok(s, r),
        Mode::Update { .. } => form_frame_ok(s, r),
    }
}

/// Describe the form box for the open form: its title names the form and its
/// content is the current input buffer.
pub fn render_input_form(session: &Session) -> (r: FrameDesc)
    requires
        !(session@.mode is List),
    ensures
        form_frame_ok(session@, r),
{
    let title: String = match session.mode {
        Mode::AddNew => "Ingresa tu tarea:".to_owned(),
        Mode::Update { .. } => "Edita tu tarea:".to_owned(),
        Mode::List => String::new(),
    };
    FrameDesc::Form { title, content: session.input.clone() }
}

/// Describe the task list: the fixed title, and either the empty-state
/// placeholder or one row per task with its completion and selection marks.
pub fn render_list(store: &TaskStore) -> (r: FrameDesc)
    ensures
        list_frame_ok(store@, r),
{
    let title: String = "App Tasks Perro Malo".to_owned();
    if store.tasks.len() == 0 {
        FrameDesc::EmptyNotice { title, message: "No hay tareas.".to_owned() }
    } else {
        let mut rows: Vec<RowDesc> = Vec::new();
        let mut idx: usize = 0;
        while idx < store.tasks.len()
            invariant
                idx <= store.tasks.len(),
                rows@.len() == idx,
                forall|j: int| 0 <= j < idx ==> row_ok(store@, #[trigger] rows@[j], j),
            decreases store.tasks.len() - idx,
        {
            let selected = match store.selected {
                Some(s) => s == idx,
                None => false,
            };
            let row = RowDesc {
                text: store.tasks[idx].description.clone(),
                done: store.tasks[idx].is_done,
                selected,
            };
            rows.push(row);
            idx += 1;
        }
        FrameDesc::TaskRows { title, rows }
    }
}

/// Describe the frame for the current session, by mode. Rendering never
/// mutates the session.
pub fn render(session: &Session) -> (r: FrameDesc)
    ensures
        frame_ok(session@, r),
{
    match session.mode {
        Mode::AddNew => render_input_form(session),
        Mode::Update { .. } => render_input_form(session),
        Mode::List => render_list(&session.store),
    }
}

} // verus!
