//! A single task.

use vstd::prelude::*;
use crate::priority::Priority;

verus! {

/// One tracked work item.
#[derive(Debug)]
pub struct Task {
    /// The task's name.
    pub task: String,
    pub priority: Priority,
    pub description: String,
}

/// What a [`Task`] holds, as mathematical values.
pub struct TaskView {
    pub name: Seq<char>,
    pub priority: Priority,
    pub description: Seq<char>,
}

impl View for Task {
    type V = TaskView;

    open spec fn view(&self) -> TaskView {
        TaskView { name: self.task@, priority: self.priority, description: self.description@ }
    }
}

impl Clone for Task {
    fn clone(&self) -> (copy: Self)
        ensures
            copy@ == self@,
    {
        Task {
            task: self.task.clone(),
            priority: self.priority,
            description: self.description.clone(),
        }
    }
}

impl Task {
    /// A task with the given name, priority and description.
    pub fn new(task: String, priority: Priority, description: String) -> (made: Task)
        ensures
            made@ == (TaskView { name: task@, priority, description: description@ }),
    {
        Task { task, priority, description }
    }
}

impl PartialEq for Task {
    /// Two tasks are equal when name, priority and description are.
    fn eq(&self, other: &Self) -> (same: bool) {
        self.task == other.task && self.priority == other.priority && self.description
            == other.description
    }
}

impl vstd::std_specs::cmp::PartialEqSpecImpl for Task {
    open spec fn obeys_eq_spec() -> bool {
        true
    }

    open spec fn eq_spec(&self, other: &Self) -> bool {
        self@ == other@
    }
}

/// The priority of a stored task that names none: `Low`.
pub fn priority_default() -> (priority: Priority)
    ensures
        priority == Priority::Low,
{
    Priority::Low
}

/// The description of a stored task that has none: the empty text.
pub fn description_default() -> (description: String)
    ensures
        description@ == Seq::<char>::empty(),
{
    String::new()
}

} // verus!
