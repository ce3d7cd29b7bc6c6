use vstd::prelude::*;
use crate::error::{ApiError, title_error, title_ok, trim_of, trimmed, validate_title};
use crate::models::{CreateTaskRequest, Task};
use crate::repo::{RepoError, lookup};
use crate::state::{AppState, StateView, after_create, create_step, new_task};

verus! {

/// The last second of the year 9999, in seconds since the Unix epoch: up to
/// it a year is written with four digits.
pub const LAST_FOUR_DIGIT_YEAR_SECS: i64 = 253402300799;

/// What chrono writes for `secs` seconds after the Unix epoch, in UTC, as RFC
/// 3339 with whole seconds and a `Z` suffix.
pub uninterp spec fn rfc3339_of_secs(secs: i64) -> Seq<char>;

/// A time stamp of the shape `YYYY-MM-DDTHH:MM:SSZ`.
pub open spec fn stamp_shaped(s: Seq<char>) -> bool {
    &&& s.len() == 20
    &&& s[4] == '-' && s[7] == '-' && s[10] == 'T' && s[13] == ':' && s[16] == ':' && s[19] == 'Z'
    &&& forall|i: int|
        0 <= i < 19 && i != 4 && i != 7 && i != 10 && i != 13 && i != 16 ==> '0' <= #[trigger] s[i]
            <= '9'
}

/// Relies on `SystemTime::now` and `SystemTime::duration_since(UNIX_EPOCH)`:
/// whole seconds since the epoch, or `None` for a clock set before it.
#[verifier::external_body]
fn unix_now_secs() -> (r: Option<u64>) {
    match std::time::SystemTime::now().duration_since(std::time::UNIX_EPOCH) {
        Ok(d) => Some(d.as_secs()),
        Err(_) => None,
    }
}

/// Relies on chrono's `DateTime::from_timestamp` (`None` outside chrono's
/// range) and `DateTime::to_rfc3339_opts` with `SecondsFormat::Secs` and a `Z`
/// suffix, which writes a year from 0 to 9999 with four digits.
#[verifier::external_body]
fn rfc3339_text(secs: i64) -> (r: Option<String>)
    ensures
        r is Some ==> r->0@ == rfc3339_of_secs(secs),
        0 <= secs <= LAST_FOUR_DIGIT_YEAR_SECS ==> r is Some && stamp_shaped(r->0@),
{
    match chrono::DateTime::from_timestamp(secs, 0) {
        Some(t) => Some(t.to_rfc3339_opts(chrono::SecondsFormat::Secs, true)),
        None => None,
    }
}

/// The state after a request with an accepted title whose store step fails:
/// the id was handed out, and nothing was stored.
pub open spec fn after_failed_store(s: StateView) -> StateView {
    StateView { tasks: s.tasks, next_id: (s.next_id + 1) as i64 }
}

/// Creates a task stamped with `created_at`, with the store's failure hook
/// set to `simulate_failure`: the title is checked and trimmed, then an id is
/// handed out and the record is stored. A store failure is reported as
/// `Internal`, and the id it took stays used.
pub fn create_task_at_with_hook(
    state: &mut AppState,
    req: CreateTaskRequest,
    created_at: String,
    simulate_failure: bool,
) -> (r: Result<Task, ApiError>)
    requires
        old(state)@.next_id < i64::MAX,
    ensures
        r is Ok <==> title_ok(trim_of(req.title@)) && !simulate_failure,
        !title_ok(trim_of(req.title@)) ==> final(state)@ == old(state)@,
        title_ok(trim_of(req.title@)) && simulate_failure ==> final(state)@ == after_failed_store(
            old(state)@,
        ),
        title_ok(trim_of(req.title@)) && !simulate_failure ==> final(state)@ == create_step(
            old(state)@,
            req.title@,
            req.completed,
            created_at@,
        ),
        match r {
            Ok(t) => t@ == new_task(old(state)@, trim_of(req.title@), req.completed, created_at@),
            Err(ApiError::BadRequest(m)) => title_error(trim_of(req.title@)) == Some(m@),
            Err(ApiError::Internal(m)) => title_ok(trim_of(req.title@)) && simulate_failure && m@
                == RepoError::SimulatedFailure.spec_message(),
            Err(ApiError::NotFound) => false,
        },
{
    match validate_title(req.title.as_str()) {
        Ok(()) => {},
        Err(e) => {
            return Err(e);
        },
    }
    let title = trimmed(req.title.as_str()).to_string();
    let id = state.allocate_id();
    let task = Task { id, title, completed: req.completed, created_at };
    match state.store(&task, simulate_failure) {
        Ok(()) => Ok(task),
        Err(e) => Err(ApiError::from_repo_error(e)),
    }
}

/// Creates a task stamped with `created_at`.
pub fn create_task_at(state: &mut AppState, req: CreateTaskRequest, created_at: String) -> (r:
    Result<Task, ApiError>)
    requires
        old(state)@.next_id < i64::MAX,
    ensures
        r is Ok <==> title_ok(trim_of(req.title@)),
        final(state)@ == create_step(old(state)@, req.title@, req.completed, created_at@),
        match r {
            Ok(t) => t@ == new_task(old(state)@, trim_of(req.title@), req.completed, created_at@),
            Err(ApiError::BadRequest(m)) => title_error(trim_of(req.title@)) == Some(m@),
            Err(_) => false,
        },
{
    create_task_at_with_hook(state, req, created_at, false)
}

/// Creates a task stamped with the current UTC second. A clock that reads
/// before 1970 or after the year 9999 gives `Internal` and changes nothing.
pub fn create_task(state: &mut AppState, req: CreateTaskRequest) -> (r: Result<Task, ApiError>)
    requires
        old(state)@.next_id < i64::MAX,
    ensures
        match r {
            Ok(t) => {
                &&& title_ok(trim_of(req.title@))
                &&& t@ == new_task(old(state)@, trim_of(req.title@), req.completed, t.created_at@)
                &&& final(state)@ == after_create(
                    old(state)@,
                    trim_of(req.title@),
                    req.completed,
                    t.created_at@,
                )
                &&& stamp_shaped(t.created_at@)
                &&& exists|secs: i64| t.created_at@ == rfc3339_of_secs(secs)
            },
            Err(ApiError::BadRequest(m)) => {
                &&& title_error(trim_of(req.title@)) == Some(m@)
                &&& final(state)@ == old(state)@
            },
            Err(ApiError::Internal(m)) => {
                &&& title_ok(trim_of(req.title@))
                &&& m@ == "clock reading out of range"@
                &&& final(state)@ == old(state)@
            },
            Err(ApiError::NotFound) => false,
        },
{
    match validate_title(req.title.as_str()) {
        Ok(()) => {},
        Err(e) => {
            return Err(e);
        },
    }
    let secs = match unix_now_secs() {
        Some(s) => s,
        None => {
            return Err(ApiError::Internal("clock reading out of range".to_string()));
        },
    };
    if secs > LAST_FOUR_DIGIT_YEAR_SECS as u64 {
        return Err(ApiError::Internal("clock reading out of range".to_string()));
    }
    let secs = secs as i64;
    let now = match rfc3339_text(secs) {
        Some(t) => t,
        None => {
            return Err(ApiError::Internal("clock reading out of range".to_string()));
        },
    };
    create_task_at(state, req, now)
}

/// The record at `id`, or `NotFound`.
pub fn get_task(state: &AppState, id: i64) -> (r: Result<Task, ApiError>)
    ensures
        match r {
            Ok(t) => lookup(state@.tasks, id) == Some(t@),
            Err(e) => lookup(state@.tasks, id) is None && e is NotFound,
        },
{
    match state.find(id) {
        Some(t) => Ok(t),
        None => Err(ApiError::NotFound),
    }
}

} // verus!
