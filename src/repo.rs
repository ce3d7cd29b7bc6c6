use vstd::prelude::*;
use std::collections::HashMap;
use crate::models::{Task, TaskView};

verus! {

broadcast use vstd::std_specs::hash::group_hash_axioms;

/// A failure of the task store.
#[derive(Debug, PartialEq, Eq, Structural)]
pub enum RepoError {
    /// Returned when an insertion was asked to fail.
    SimulatedFailure,
}

impl RepoError {
    pub open spec fn spec_message(&self) -> Seq<char> {
        match self {
            RepoError::SimulatedFailure => "RepoError OK"@,
        }
    }

    pub fn message(&self) -> (r: String)
        ensures
            r@ == self.spec_message(),
    {
        match self {
            RepoError::SimulatedFailure => "RepoError OK".to_string(),
        }
    }
}

/// The stored records, by id.
pub type TaskMap = Map<i64, TaskView>;

/// A store of task records, able to insert and to look one up.
pub trait TaskRepository {
    /// The records that the store holds.
    spec fn contents(&self) -> TaskMap;

    /// Adds the record at `task.id`, or overwrites the one there.
    fn insert(&mut self, task: Task) -> (r: Result<(), RepoError>)
        ensures
            r is Ok ==> final(self).contents() == old(self).contents().insert(task.id, task@),
            r is Err ==> final(self).contents() == old(self).contents(),
    ;

    /// A copy of the record at `id`, if there is one.
    fn get(&self, id: i64) -> (r: Result<Option<Task>, RepoError>)
        ensures
            r matches Ok(o) ==> match o {
                Some(t) => self.contents().contains_key(id) && t@ == self.contents()[id],
                None => !self.contents().contains_key(id),
            },
    ;
}

/// The record at `id` in `m`, if there is one.
pub open spec fn lookup(m: TaskMap, id: i64) -> Option<TaskView> {
    if m.contains_key(id) {
        Some(m[id])
    } else {
        None
    }
}

/// A task store held in memory.
pub struct InMemoryTaskRepository {
    tasks: HashMap<i64, Task>,
}

impl View for InMemoryTaskRepository {
    type V = TaskMap;

    closed spec fn view(&self) -> TaskMap {
        self.tasks@.map_values(|t: Task| t@)
    }
}

impl InMemoryTaskRepository {
    /// An empty store.
    pub fn new() -> (r: Self)
        ensures
            r@ == TaskMap::empty(),
    {
        let r = InMemoryTaskRepository { tasks: HashMap::new() };
        assert(r@ =~= TaskMap::empty());
        r
    }

    /// Adds the record at `task.id`, or overwrites the one there.
    pub fn put(&mut self, task: Task)
        ensures
            final(self)@ == old(self)@.insert(task.id, task@),
    {
        let ghost v = task@;
        let id = task.id;
        self.tasks.insert(id, task);
        assert(self@ =~= old(self)@.insert(id, v));
    }

    /// A copy of the record at `id`, if there is one.
    pub fn find(&self, id: i64) -> (r: Option<Task>)
        ensures
            match r {
                Some(t) => lookup(self@, id) == Some(t@),
                None => lookup(self@, id) is None,
            },
    {
        match self.tasks.get(&id) {
            Some(t) => Some(t.duplicate()),
            None => None,
        }
    }
}

impl TaskRepository for InMemoryTaskRepository {
    open spec fn contents(&self) -> TaskMap {
        self@
    }

    /// The store in memory never fails.
    fn insert(&mut self, task: Task) -> (r: Result<(), RepoError>)
        ensures
            r is Ok,
    {
        self.put(task);
        Ok(())
    }

    /// The store in memory never fails.
    fn get(&self, id: i64) -> (r: Result<Option<Task>, RepoError>)
        ensures
            r is Ok,
    {
        Ok(self.find(id))
    }
}

/// Stores `task` unless `simulate_failure` is set, in which case the store is
/// left as it was and the failure is returned.
pub fn insert_task(repo: &mut InMemoryTaskRepository, task: &Task, simulate_failure: bool) -> (r:
    Result<(), RepoError>)
    ensures
        simulate_failure ==> r == Err::<(), RepoError>(RepoError::SimulatedFailure) && final(repo)@
            == old(repo)@,
        !simulate_failure ==> r is Ok && final(repo)@ == old(repo)@.insert(task.id, task@),
{
    if simulate_failure {
        return Err(RepoError::SimulatedFailure);
    }
    repo.put(task.duplicate());
    Ok(())
}

} // verus!
