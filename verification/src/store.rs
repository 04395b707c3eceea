//! The task store: an ordered list of tasks plus the current selection.
//!
//! Every mutation keeps the invariant that the selection, when present, is a
//! valid index into the list. Each executable method is pinned to a spec-level
//! function on `StoreView`, so that laws about combined operations can be
//! stated and proved once, at the spec level.

use vstd::prelude::*;

verus! {

/// A single to-do entry.
#[derive(Debug)]
pub struct Task {
    pub description: String,
    pub is_done: bool,
}

/// Mathematical image of a `Task`.
pub struct TaskView {
    pub description: Seq<char>,
    pub is_done: bool,
}

impl View for Task {
    type V = TaskView;

    open spec fn view(&self) -> TaskView {
        TaskView { description: self.description@, is_done: self.is_done }
    }
}

/// Mathematical image of a `TaskStore`.
#[verifier::ext_equal]
pub struct StoreView {
    pub tasks: Seq<TaskView>,
    pub selected: Option<int>,
}

/// The selection, when present, is a valid index into the task list.
pub open spec fn store_wf(v: StoreView) -> bool {
    v.selected matches Some(i) ==> 0 <= i < v.tasks.len()
}

/// Moving the selection up: clamp at the first row; with no selection and a
/// non-empty list, land on the last row; an empty list keeps no selection.
pub open spec fn select_up_spec(v: StoreView) -> StoreView {
    if v.tasks.len() == 0 {
        StoreView { selected: None, ..v }
    } else {
        match v.selected {
            Some(i) => StoreView { selected: Some(if i > 0 { i - 1 } else { 0 }), ..v },
            None => StoreView { selected: Some(v.tasks.len() - 1), ..v },
        }
    }
}

/// Moving the selection down: clamp at the last row; with no selection and a
/// non-empty list, land on the first row; an empty list keeps no selection.
pub open spec fn select_down_spec(v: StoreView) -> StoreView {
    if v.tasks.len() == 0 {
        StoreView { selected: None, ..v }
    } else {
        match v.selected {
            Some(i) => StoreView {
                selected: Some(if i + 1 < v.tasks.len() { i + 1 } else { v.tasks.len() - 1 }),
                ..v
            },
            None => StoreView { selected: Some(0int), ..v },
        }
    }
}

/// Flipping the completion flag of the selected task; a no-op without a
/// selection.
pub open spec fn toggle_spec(v: StoreView) -> StoreView {
    match v.selected {
        Some(i) => if 0 <= i < v.tasks.len() {
            StoreView {
                tasks: v.tasks.update(
                    i,
                    TaskView { is_done: !v.tasks[i].is_done, ..v.tasks[i] },
                ),
                ..v
            }
        } else {
            v
        },
        None => v,
    }
}

/// Removing the selected task; a no-op without a selection. The tasks after
/// the removed one shift down by one. The selection is cleared when the list
/// becomes empty, and otherwise clamped to stay valid.
pub open spec fn delete_spec(v: StoreView) -> StoreView {
    match v.selected {
        Some(i) => if 0 <= i < v.tasks.len() {
            StoreView {
                tasks: v.tasks.remove(i),
                selected: if v.tasks.len() == 1 {
                    None
                } else if i < v.tasks.len() - 1 {
                    Some(i)
                } else {
                    Some(i - 1)
                },
            }
        } else {
            v
        },
        None => v,
    }
}

/// Appending a fresh, not-yet-done task; the selection is untouched.
pub open spec fn push_task_spec(v: StoreView, description: Seq<char>) -> StoreView {
    StoreView {
        tasks: v.tasks.push(TaskView { description, is_done: false }),
        ..v
    }
}

/// Overwriting the description of the task at `target`, keeping its
/// completion flag and every other task; silently skipped when `target` is
/// out of bounds.
pub open spec fn update_description_spec(v: StoreView, target: int, description: Seq<char>) -> StoreView {
    if 0 <= target < v.tasks.len() {
        StoreView {
            tasks: v.tasks.update(
                target,
                TaskView { description, ..v.tasks[target] },
            ),
            ..v
        }
    } else {
        v
    }
}

/// The ordered task list plus the current selection.
#[derive(Debug)]
pub struct TaskStore {
    pub tasks: Vec<Task>,
    pub selected: Option<usize>,
}

impl View for TaskStore {
    type V = StoreView;

    open spec fn view(&self) -> StoreView {
        StoreView {
            tasks: self.tasks@.map_values(|t: Task| t@),
            selected: match self.selected {
                Some(i) => Some(i as int),
                None => None,
            },
        }
    }
}

impl TaskStore {
    /// The selection, when present, is a valid index into the task list.
    pub open spec fn wf(&self) -> bool {
        store_wf(self@)
    }

    /// An empty store with no selection.
    pub fn new() -> (r: TaskStore)
        ensures
            r@.tasks.len() == 0,
            r@.selected is None,
            r.wf(),
    {
        TaskStore { tasks: Vec::new(), selected: None }
    }

    /// Move the selection one row up, clamping at the first row.
    pub fn select_up(&mut self)
        requires
            old(self).wf(),
        ensures
            final(self).wf(),
            final(self)@ == select_up_spec(old(self)@),
    {
        if self.tasks.len() == 0 {
            self.selected = None;
        } else {
            match self.selected {
                Some(i) => {
                    self.selected = Some(if i > 0 { i - 1 } else { 0 });
                },
                None => {
                    self.selected = Some(self.tasks.len() - 1);
                },
            }
        }
    }

    /// Move the selection one row down, clamping at the last row.
    pub fn select_down(&mut self)
        requires
            old(self).wf(),
        ensures
            final(self).wf(),
            final(self)@ == select_down_spec(old(self)@),
    {
        if self.tasks.len() == 0 {
            self.selected = None;
        } else {
            match self.selected {
                Some(i) => {
                    if i + 1 < self.tasks.len() {
                        self.selected = Some(i + 1);
                    } else {
                        self.selected = Some(self.tasks.len() - 1);
                    }
                },
                None => {
                    self.selected = Some(0);
                },
            }
        }
    }

    /// Flip the completion flag of the selected task; a no-op without a
    /// selection.
    pub fn toggle_selected(&mut self)
        requires
            old(self).wf(),
        ensures
            final(self).wf(),
            final(self)@ == toggle_spec(old(self)@),
    {
        match self.selected {
            Some(i) => {
                let flipped = Task {
                    description: self.tasks[i].description.clone(),
                    is_done: !self.tasks[i].is_done,
                };
                self.tasks.set(i, flipped);
                assert(final(self)@.tasks =~= toggle_spec(old(self)@).tasks);
            },
            None => {},
        }
    }

    /// Remove the selected task; a no-op without a selection. The selection
    /// is cleared when the list becomes empty and clamped otherwise.
    pub fn delete_selected(&mut self)
        requires
            old(self).wf(),
        ensures
            final(self).wf(),
            final(self)@ == delete_spec(old(self)@),
    {
        match self.selected {
            Some(i) => {
                self.tasks.remove(i);
                if self.tasks.len() == 0 {
                    self.selected = None;
                } else if i < self.tasks.len() {
                    self.selected = Some(i);
                } else {
                    self.selected = Some(i - 1);
                }
                assert(final(self)@.tasks =~= delete_spec(old(self)@).tasks);
            },
            None => {},
        }
    }

    /// Append a fresh, not-yet-done task with the given description.
    pub fn push_task(&mut self, description: String)
        requires
            old(self).wf(),
        ensures
            final(self).wf(),
            final(self)@ == push_task_spec(old(self)@, description@),
    {
        self.tasks.push(Task { description, is_done: false });
        assert(final(self)@.tasks =~= push_task_spec(old(self)@, description@).tasks);
    }

    /// Overwrite the description of the task at `target`, keeping its
    /// completion flag; silently skipped when `target` is out of bounds.
    pub fn update_description(&mut self, target: usize, description: String)
        requires
            old(self).wf(),
        ensures
            final(self).wf(),
            final(self)@ == update_description_spec(old(self)@, target as int, description@),
    {
        if target < self.tasks.len() {
            let replaced = Task { description, is_done: self.tasks[target].is_done };
            self.tasks.set(target, replaced);
            assert(final(self)@.tasks =~= update_description_spec(
                old(self)@, target as int, description@).tasks);
        }
    }
}

/// Law: toggling the selected task twice restores the store exactly, so in
/// particular each task keeps its original completion flag.
pub proof fn lemma_toggle_twice(v: StoreView)
    requires
        store_wf(v),
    ensures
        toggle_spec(toggle_spec(v)) == v,
{
    match v.selected {
        Some(i) => {
            assert(toggle_spec(toggle_spec(v)).tasks =~= v.tasks);
            assert(toggle_spec(toggle_spec(v)) =~= v);
        },
        None => {},
    }
}

} // verus!
