//! The task store: the ordered tasks and the selection cursor.

use vstd::prelude::*;
use ratatui::widgets::ListState;
use crate::task::{Task, TaskView};

verus! {

/// The tasks in their stored order, and which of them is selected.
///
/// The selection is meant to point at a task. One that points past the last
/// task is read as pointing at the last one, and any selection on an empty
/// store as none: see [`Tasks::cursor`]. No operation makes a selection that
/// points at a task point elsewhere.
#[derive(Debug)]
pub struct Tasks {
    pub tasks: Vec<Task>,
    pub selection: Option<usize>,
}

/// What a [`Tasks`] holds, as mathematical values.
pub struct TasksView {
    pub tasks: Seq<TaskView>,
    pub selection: Option<usize>,
}

/// `replace` was given an index at which the store has no task.
#[derive(Debug, Clone, Copy, PartialEq, Eq, Structural)]
pub struct IndexError {
    /// The index that was asked for.
    pub index: usize,
    /// How many tasks the store held.
    pub len: usize,
}

/// A selection brought into a list of `len` items: none where the list is
/// empty, the last item where it points past the end.
pub open spec fn clamped(len: nat, selection: Option<usize>) -> Option<usize> {
    match selection {
        None => None,
        Some(i) => if len == 0 {
            None
        } else if i < len {
            Some(i)
        } else {
            Some((len - 1) as usize)
        },
    }
}

/// The selection one step further down a list without end: the first item
/// where nothing was selected.
pub open spec fn stepped_down(selection: Option<usize>) -> Option<usize> {
    match selection {
        None => Some(0usize),
        Some(i) => if i < usize::MAX {
            Some((i + 1) as usize)
        } else {
            Some(i)
        },
    }
}

/// The selection one step further up a list without end: the largest index
/// where nothing was selected.
pub open spec fn stepped_up(selection: Option<usize>) -> Option<usize> {
    match selection {
        None => Some(usize::MAX),
        Some(i) => if i > 0 {
            Some((i - 1) as usize)
        } else {
            Some(i)
        },
    }
}

impl TasksView {
    /// The selection, if there is one, points at a task.
    pub open spec fn wf(self) -> bool {
        self.selection matches Some(i) ==> i < self.tasks.len()
    }

    /// The selection as the list shows it.
    pub open spec fn cursor(self) -> Option<usize> {
        clamped(self.tasks.len(), self.selection)
    }

    /// The store after the selection has moved one task down.
    pub open spec fn select_next(self) -> TasksView {
        if self.tasks.len() == 0 {
            self
        } else {
            TasksView {
                selection: clamped(self.tasks.len(), stepped_down(self.cursor())),
                ..self
            }
        }
    }

    /// The store after the selection has moved one task up.
    pub open spec fn select_previous(self) -> TasksView {
        if self.tasks.len() == 0 {
            self
        } else {
            TasksView { selection: clamped(self.tasks.len(), stepped_up(self.cursor())), ..self }
        }
    }

    /// The store with `task` at its end.
    pub open spec fn insert(self, task: TaskView) -> TasksView {
        TasksView { tasks: self.tasks.push(task), ..self }
    }

    /// The store with `task` at `index`, or as it is where it has no task
    /// there.
    pub open spec fn replace(self, index: usize, task: TaskView) -> TasksView {
        if index < self.tasks.len() {
            TasksView { tasks: self.tasks.update(index as int, task), ..self }
        } else {
            self
        }
    }

    /// The store without the selected task, the selection still on the same
    /// index or, where that is gone, on the last task.
    pub open spec fn remove_selected(self) -> TasksView {
        match self.cursor() {
            None => self,
            Some(i) => TasksView {
                tasks: self.tasks.remove(i as int),
                selection: clamped((self.tasks.len() - 1) as nat, Some(i)),
            },
        }
    }
}

impl View for Tasks {
    type V = TasksView;

    open spec fn view(&self) -> TasksView {
        TasksView { tasks: self.tasks@.map_values(|t: Task| t@), selection: self.selection }
    }
}

/// `ListState::select_next` of ratatui, on a list state whose selection is
/// `selection`: the selection it leaves is the next index, saturating, or the
/// first where there was none.
#[verifier::external_body]
fn list_state_next(selection: Option<usize>) -> (next: Option<usize>)
    ensures
        next == stepped_down(selection),
{
    let mut state = ListState::default().with_selected(selection);
    state.select_next();
    state.selected()
}

/// `ListState::select_previous` of ratatui, on a list state whose selection
/// is `selection`: the selection it leaves is the index before, saturating at
/// zero, or `usize::MAX` where there was none.
#[verifier::external_body]
fn list_state_previous(selection: Option<usize>) -> (previous: Option<usize>)
    ensures
        previous == stepped_up(selection),
{
    let mut state = ListState::default().with_selected(selection);
    state.select_previous();
    state.selected()
}

/// Brings a selection into a list of `len` items, as the list widget does
/// each time it is drawn.
pub fn clamp_selection(len: usize, selection: Option<usize>) -> (shown: Option<usize>)
    ensures
        shown == clamped(len as nat, selection),
{
    match selection {
        None => None,
        Some(i) => if len == 0 {
            None
        } else if i < len {
            Some(i)
        } else {
            Some(len - 1)
        },
    }
}

impl Tasks {
    /// A store of the given tasks with nothing selected.
    pub fn new(tasks: Vec<Task>) -> (store: Tasks)
        ensures
            store.tasks == tasks,
            store.selection.is_none(),
            store@.wf(),
    {
        Tasks { tasks, selection: None }
    }

    /// The selection as the list shows it: the index of the selected task.
    pub fn cursor(&self) -> (cursor: Option<usize>)
        ensures
            cursor == self@.cursor(),
            cursor matches Some(i) ==> i < self.tasks.len(),
            self@.wf() ==> cursor == self.selection,
    {
        clamp_selection(self.tasks.len(), self.selection)
    }

    /// Moves the selection to the next task and stops at the last one. Selects
    /// the first task where none was selected. Does nothing to an empty store.
    pub fn select_next(&mut self)
        ensures
            final(self)@ == old(self)@.select_next(),
            final(self).tasks == old(self).tasks,
            old(self).tasks.len() == 0 ==> *final(self) == *old(self),
            old(self).tasks.len() > 0 ==> final(self)@.wf(),
    {
        let len = self.tasks.len();
        if len > 0 {
            let next = list_state_next(self.cursor());
            self.selection = clamp_selection(len, next);
        }
    }

    /// Moves the selection to the task before and stops at the first one.
    /// Selects the last task where none was selected. Does nothing to an empty
    /// store.
    pub fn select_previous(&mut self)
        ensures
            final(self)@ == old(self)@.select_previous(),
            final(self).tasks == old(self).tasks,
            old(self).tasks.len() == 0 ==> *final(self) == *old(self),
            old(self).tasks.len() > 0 ==> final(self)@.wf(),
    {
        let len = self.tasks.len();
        if len > 0 {
            let previous = list_state_previous(self.cursor());
            self.selection = clamp_selection(len, previous);
        }
    }

    /// Appends `task`. The selection stays where it is.
    pub fn insert(&mut self, task: Task)
        ensures
            final(self)@ == old(self)@.insert(task@),
            final(self).tasks@ == old(self).tasks@.push(task),
            final(self).selection == old(self).selection,
            old(self)@.wf() ==> final(self)@.wf(),
    {
        self.tasks.push(task);
        assert(self@.tasks =~= old(self)@.tasks.push(task@));
    }

    /// Puts `task` in the place of the task at `index`. Fails, and changes
    /// nothing, where the store has no task at `index`.
    pub fn replace(&mut self, index: usize, task: Task) -> (replaced: Result<(), IndexError>)
        ensures
            final(self)@ == old(self)@.replace(index, task@),
            index < old(self).tasks.len() ==> replaced.is_ok() && final(self).tasks@ == old(
                self,
            ).tasks@.update(index as int, task),
            index >= old(self).tasks.len() ==> replaced == Err::<(), IndexError>(
                IndexError { index, len: old(self).tasks.len() },
            ) && *final(self) == *old(self),
            final(self).selection == old(self).selection,
    {
        let len = self.tasks.len();
        if index < len {
            self.tasks.set(index, task);
            assert(self@.tasks =~= old(self)@.tasks.update(index as int, task@));
            Ok(())
        } else {
            Err(IndexError { index, len })
        }
    }

    /// Removes the selected task. The selection stays on the same index, moves
    /// to the last task where that index is gone, and is dropped where the
    /// store is left empty. Does nothing where no task is selected.
    pub fn remove_selected(&mut self)
        ensures
            final(self)@ == old(self)@.remove_selected(),
            old(self).tasks.len() == 0 || old(self).selection.is_none() ==> *final(self) == *old(
                self,
            ),
            old(self)@.wf() ==> final(self)@.wf(),
            old(self)@.cursor() matches Some(i) ==> final(self).tasks@ == old(self).tasks@.remove(
                i as int,
            ) && final(self)@.wf(),
    {
        match self.cursor() {
            None => {},
            Some(i) => {
                self.tasks.remove(i);
                self.selection = clamp_selection(self.tasks.len(), Some(i));
                assert(self@.tasks =~= old(self)@.tasks.remove(i as int));
            },
        }
    }
}

/// Moving down and back up comes back to the task from which it started,
/// unless that task is the last of several: there `select_next` cannot move,
/// and `select_previous` then goes one task up.
pub proof fn lemma_next_then_previous(store: TasksView, start: usize)
    requires
        store.selection == Some(start),
        start < store.tasks.len() <= usize::MAX,
    ensures
        start + 1 < store.tasks.len() || store.tasks.len() == 1
            ==> store.select_next().select_previous() == store,
        start + 1 == store.tasks.len() && store.tasks.len() >= 2
            ==> store.select_next().select_previous() == (TasksView {
            selection: Some((start - 1) as usize),
            ..store
        }),
{
}

/// Moving up and back down comes back to the task from which it started,
/// unless that task is the first of several: there `select_previous` cannot
/// move, and `select_next` then goes one task down.
pub proof fn lemma_previous_then_next(store: TasksView, start: usize)
    requires
        store.selection == Some(start),
        start < store.tasks.len() <= usize::MAX,
    ensures
        start > 0 || store.tasks.len() == 1 ==> store.select_previous().select_next() == store,
        start == 0 && store.tasks.len() >= 2 ==> store.select_previous().select_next() == (
        TasksView { selection: Some(1usize), ..store }),
{
}

/// The selection moves by one task at most and stays on a task; at either end
/// of the list it stays where it is.
pub proof fn lemma_selection_steps(store: TasksView)
    requires
        0 < store.tasks.len() <= usize::MAX,
        store.wf(),
    ensures
        store.select_next().wf(),
        store.select_previous().wf(),
        store.selection.is_none() ==> store.select_next().selection == Some(0usize),
        store.selection.is_none() ==> store.select_previous().selection == Some(
            (store.tasks.len() - 1) as usize,
        ),
        store.selection matches Some(i) ==> store.select_next().selection == Some(
            if i + 1 < store.tasks.len() {
                (i + 1) as usize
            } else {
                i
            },
        ),
        store.selection matches Some(i) ==> store.select_previous().selection == Some(
            if i > 0 {
                (i - 1) as usize
            } else {
                i
            },
        ),
{
}

} // verus!
