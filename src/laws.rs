use vstd::prelude::*;
use crate::error::{title_ok, trim_of};
use crate::models::TaskView;
use crate::repo::lookup;
use crate::state::{StateView, after_create, create_step, new_task, state_wf};

verus! {

/// One request to create a task: the title as sent, the flag, the time stamp.
pub type CreateArgs = (Seq<char>, bool, Seq<char>);

/// The state after the requests of `reqs`, taken in order, starting from `s`.
pub open spec fn create_all(s: StateView, reqs: Seq<CreateArgs>) -> StateView
    decreases reqs.len(),
{
    if reqs.len() == 0 {
        s
    } else {
        create_all(create_step(s, reqs[0].0, reqs[0].1, reqs[0].2), reqs.drop_first())
    }
}

/// Every title of `reqs` is accepted.
pub open spec fn all_titles_ok(reqs: Seq<CreateArgs>) -> bool {
    forall|i: int| 0 <= i < reqs.len() ==> #[trigger] title_ok(trim_of(reqs[i].0))
}

/// A successful creation hands out the counter's value, which lies above every
/// id handed out before (those lie below it) and every stored id, and leaves a well-formed state whose counter has moved past it.
pub proof fn lemma_created_id_exceeds_allocated(
    s: StateView,
    raw_title: Seq<char>,
    completed: bool,
    created_at: Seq<char>,
)
    requires
        state_wf(s),
        s.next_id < i64::MAX,
        title_ok(trim_of(raw_title)),
    ensures
        ({
            let t = new_task(s, trim_of(raw_title), completed, created_at);
            let s2 = create_step(s, raw_title, completed, created_at);
            &&& t.id == s.next_id
            &&& forall|k: i64| #[trigger] s.tasks.contains_key(k) ==> k < t.id
            &&& t.id < s2.next_id
            &&& state_wf(s2)
        }),
{
    let t = new_task(s, trim_of(raw_title), completed, created_at);
    let s2 = create_step(s, raw_title, completed, created_at);
    assert forall|k: i64| #[trigger] s2.tasks.contains_key(k) implies 1 <= k < s2.next_id
        && s2.tasks[k].id == k && title_ok(s2.tasks[k].title) by {
        if k != t.id {
            assert(s.tasks.contains_key(k));
        }
    }
}

/// A rejected title changes nothing: a later request fares exactly as if the
/// rejected one had never been made, and gets the same id.
pub proof fn lemma_rejected_title_consumes_nothing(
    s: StateView,
    bad: CreateArgs,
    good: CreateArgs,
)
    requires
        !title_ok(trim_of(bad.0)),
    ensures
        create_step(s, bad.0, bad.1, bad.2) == s,
        create_step(create_step(s, bad.0, bad.1, bad.2), good.0, good.1, good.2) == create_step(
            s,
            good.0,
            good.1,
            good.2,
        ),
        new_task(create_step(s, bad.0, bad.1, bad.2), trim_of(good.0), good.1, good.2).id
            == new_task(s, trim_of(good.0), good.1, good.2).id,
{
}

/// No record stands under an id that was never handed out.
pub proof fn lemma_unallocated_not_found(s: StateView, id: i64)
    requires
        state_wf(s),
        id < 1 || id >= s.next_id,
    ensures
        lookup(s.tasks, id) is None,
{
}

/// The record that a successful creation returns is what a lookup of its id
/// then finds.
pub proof fn lemma_create_then_get(
    s: StateView,
    raw_title: Seq<char>,
    completed: bool,
    created_at: Seq<char>,
)
    requires
        s.next_id < i64::MAX,
        title_ok(trim_of(raw_title)),
    ensures
        lookup(create_step(s, raw_title, completed, created_at).tasks, s.next_id) == Some(
            new_task(s, trim_of(raw_title), completed, created_at),
        ),
{
}

/// A creation leaves every record that was stored before it as it was.
pub proof fn lemma_create_keeps_records(
    s: StateView,
    raw_title: Seq<char>,
    completed: bool,
    created_at: Seq<char>,
    id: i64,
)
    requires
        state_wf(s),
        s.next_id < i64::MAX,
        lookup(s.tasks, id) is Some,
    ensures
        lookup(create_step(s, raw_title, completed, created_at).tasks, id) == lookup(s.tasks, id),
{
}

/// `n` accepted requests, in whatever order they were serialised, receive the
/// `n` distinct ids that follow the counter, and each record is then found
/// under its id; nothing stored before is lost.
pub proof fn lemma_create_all(s: StateView, reqs: Seq<CreateArgs>)
    requires
        state_wf(s),
        s.next_id + reqs.len() <= i64::MAX,
        all_titles_ok(reqs),
    ensures
        ({
            let e = create_all(s, reqs);
            &&& state_wf(e)
            &&& e.next_id == s.next_id + reqs.len()
            &&& forall|i: int| 0 <= i < reqs.len() ==> #[trigger] lookup(e.tasks, (s.next_id + i) as i64)
                == Some(
                TaskView {
                    id: (s.next_id + i) as i64,
                    title: trim_of(reqs[i].0),
                    completed: reqs[i].1,
                    created_at: reqs[i].2,
                },
            )
            &&& forall|k: i64| #[trigger] s.tasks.contains_key(k) ==> lookup(e.tasks, k) == lookup(s.tasks, k)
        }),
    decreases reqs.len(),
{
    if reqs.len() > 0 {
        let s1 = create_step(s, reqs[0].0, reqs[0].1, reqs[0].2);
        let rest = reqs.drop_first();
        assert(title_ok(trim_of(reqs[0].0)));
        lemma_created_id_exceeds_allocated(s, reqs[0].0, reqs[0].1, reqs[0].2);
        assert forall|i: int| 0 <= i < rest.len() implies #[trigger] title_ok(trim_of(rest[i].0)) by {
            assert(title_ok(trim_of(reqs[i + 1].0)));
        }
        lemma_create_all(s1, rest);
        let e = create_all(s, reqs);
        assert(e == create_all(s1, rest));
        assert forall|i: int| 0 <= i < reqs.len() implies #[trigger] lookup(e.tasks, (s.next_id + i) as i64)
            == Some(
            TaskView {
                id: (s.next_id + i) as i64,
                title: trim_of(reqs[i].0),
                completed: reqs[i].1,
                created_at: reqs[i].2,
            },
        ) by {
            if i == 0 {
                assert(s1.tasks.contains_key(s.next_id));
            } else {
                assert(rest[i - 1] == reqs[i]);
                assert(lookup(e.tasks, (s1.next_id + (i - 1)) as i64) == Some(
                    TaskView {
                        id: (s1.next_id + (i - 1)) as i64,
                        title: trim_of(rest[i - 1].0),
                        completed: rest[i - 1].1,
                        created_at: rest[i - 1].2,
                    },
                ));
            }
        }
        assert forall|k: i64| #[trigger] s.tasks.contains_key(k) implies lookup(e.tasks, k) == lookup(
            s.tasks,
            k,
        ) by {
            assert(s1.tasks.contains_key(k));
        }
    }
}

} // verus!
