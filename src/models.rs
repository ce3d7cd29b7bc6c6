use vstd::prelude::*;

verus! {

/// The mathematical value of a `Task`.
pub ghost struct TaskView {
    pub id: i64,
    pub title: Seq<char>,
    pub completed: bool,
    pub created_at: Seq<char>,
}

/// A task record; it is never changed once stored.
#[derive(Debug, PartialEq, Eq)]
pub struct Task {
    pub id: i64,
    pub title: String,
    pub completed: bool,
    /// RFC 3339, UTC, second precision.
    pub created_at: String,
}

impl View for Task {
    type V = TaskView;

    open spec fn view(&self) -> TaskView {
        TaskView {
            id: self.id,
            title: self.title@,
            completed: self.completed,
            created_at: self.created_at@,
        }
    }
}

impl Task {
    /// A copy of the record, field for field.
    pub fn duplicate(&self) -> (r: Task)
        ensures
            r@ == self@,
    {
        Task {
            id: self.id,
            title: self.title.clone(),
            completed: self.completed,
            created_at: self.created_at.clone(),
        }
    }
}

impl Clone for Task {
    fn clone(&self) -> (r: Task)
        ensures
            r@ == self@,
    {
        self.duplicate()
    }
}

/// What a client sends to create a task.
#[derive(Debug)]
pub struct CreateTaskRequest {
    pub title: String,
    pub completed: bool,
}

} // verus!
