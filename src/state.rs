use vstd::prelude::*;
use crate::error::{title_ok, trim_of};
use crate::models::{Task, TaskView};
use crate::repo::{InMemoryTaskRepository, RepoError, TaskMap, insert_task, lookup};

verus! {

/// The mathematical value of the shared state: the records, and the id that
/// the next creation will receive.
pub ghost struct StateView {
    pub tasks: TaskMap,
    pub next_id: i64,
}

/// Ids start at 1; every stored record sits under its own id, that id was
/// handed out before `next_id`, and its title holds 1 to 100 characters.
pub open spec fn state_wf(s: StateView) -> bool {
    &&& 1 <= s.next_id
    &&& forall|k: i64| #[trigger]
        s.tasks.contains_key(k) ==> 1 <= k < s.next_id && s.tasks[k].id == k && title_ok(
            s.tasks[k].title,
        )
}

/// The record a successful creation makes in state `s`.
pub open spec fn new_task(s: StateView, title: Seq<char>, completed: bool, created_at: Seq<char>) -> TaskView {
    TaskView { id: s.next_id, title, completed, created_at }
}

/// The state after a successful creation in `s`.
pub open spec fn after_create(s: StateView, title: Seq<char>, completed: bool, created_at: Seq<char>) -> StateView
    recommends
        s.next_id < i64::MAX,
{
    StateView {
        tasks: s.tasks.insert(s.next_id, new_task(s, title, completed, created_at)),
        next_id: (s.next_id + 1) as i64,
    }
}

/// The state after a request to create a task with title `raw_title` (as the
/// client sent it) in `s`: a rejected title changes nothing.
pub open spec fn create_step(s: StateView, raw_title: Seq<char>, completed: bool, created_at: Seq<char>) -> StateView
    recommends
        s.next_id < i64::MAX,
{
    if title_ok(trim_of(raw_title)) {
        after_create(s, trim_of(raw_title), completed, created_at)
    } else {
        s
    }
}

/// The state that the shared state of a process is in at any moment.
pub struct AppState {
    repo: InMemoryTaskRepository,
    next_id: i64,
}

impl View for AppState {
    type V = StateView;

    closed spec fn view(&self) -> StateView {
        StateView { tasks: self.repo@, next_id: self.next_id }
    }
}

impl AppState {
    #[verifier::type_invariant]
    closed spec fn inv(&self) -> bool {
        state_wf(self@)
    }

    /// A fresh state: no records, and 1 as the first id.
    pub fn new() -> (r: Self)
        ensures
            r@ == (StateView { tasks: TaskMap::empty(), next_id: 1 }),
            state_wf(r@),
    {
        AppState { repo: InMemoryTaskRepository::new(), next_id: 1 }
    }

    /// The id that the next creation will receive.
    pub fn next_id(&self) -> (r: i64)
        ensures
            r == self@.next_id,
    {
        self.next_id
    }

    /// Hands out the next id and advances the counter by one.
    pub fn allocate_id(&mut self) -> (r: i64)
        requires
            old(self)@.next_id < i64::MAX,
        ensures
            r == old(self)@.next_id,
            1 <= r,
            final(self)@ == (StateView { tasks: old(self)@.tasks, next_id: (r + 1) as i64 }),
    {
        proof { use_type_invariant(&*self); }
        let id = self.next_id;
        assert(id < i64::MAX);
        assert forall|k: i64| #[trigger] self.repo@.contains_key(k) implies 1 <= k < id + 1
            && self.repo@[k].id == k && title_ok(self.repo@[k].title) by {
            assert(self@.tasks.contains_key(k));
        }
        self.next_id = id + 1;
        id
    }

    /// Stores `task`, which must carry an id already handed out, unless
    /// `simulate_failure` is set.
    pub fn store(&mut self, task: &Task, simulate_failure: bool) -> (r: Result<(), RepoError>)
        requires
            1 <= task.id < old(self)@.next_id,
            title_ok(task.title@),
        ensures
            simulate_failure ==> r == Err::<(), RepoError>(RepoError::SimulatedFailure) && final(self)@ == old(self)@,
            !simulate_failure ==> r is Ok && final(self)@ == (StateView {
                tasks: old(self)@.tasks.insert(task.id, task@),
                next_id: old(self)@.next_id,
            }),
    {
        proof { use_type_invariant(&*self); }
        let mut repo = InMemoryTaskRepository::new();
        std::mem::swap(&mut repo, &mut self.repo);
        let r = insert_task(&mut repo, task, simulate_failure);
        std::mem::swap(&mut repo, &mut self.repo);
        r
    }

    /// A copy of the record at `id`, if there is one.
    pub fn find(&self, id: i64) -> (r: Option<Task>)
        ensures
            state_wf(self@),
            match r {
                Some(t) => lookup(self@.tasks, id) == Some(t@),
                None => lookup(self@.tasks, id) is None,
            },
    {
        proof { use_type_invariant(self); }
        self.repo.find(id)
    }
}

} // verus!
