use task_tracker::error::{ApiError, validate_title};
use task_tracker::models::{CreateTaskRequest, Task};
use task_tracker::repo::{InMemoryTaskRepository, RepoError, TaskRepository, insert_task};
use task_tracker::state::AppState;
use task_tracker::tasks::{create_task, create_task_at, create_task_at_with_hook, get_task};

fn req(title: &str, completed: bool) -> CreateTaskRequest {
    CreateTaskRequest { title: title.to_string(), completed }
}

fn stamp() -> String {
    "2024-05-01T12:34:56Z".to_string()
}

#[test]
fn scenario_buy_milk() {
    let mut state = AppState::new();
    let t = create_task(&mut state, req("  Buy milk  ", false)).unwrap();
    assert_eq!(t.title, "Buy milk");
    assert!(!t.completed);
    assert_eq!(t.id, 1);
    assert_eq!(t.created_at.len(), 20);
    assert!(t.created_at.ends_with('Z'));
    assert_eq!(&t.created_at[10..11], "T");
    let got = get_task(&state, 1).unwrap();
    assert_eq!(got, t);
    assert_eq!(get_task(&state, 999), Err(ApiError::NotFound));
    assert!(matches!(create_task(&mut state, req("", true)), Err(ApiError::BadRequest(_))));
    let long = "a".repeat(101);
    assert!(matches!(create_task(&mut state, req(&long, false)), Err(ApiError::BadRequest(_))));
}

#[test]
fn ids_strictly_increase() {
    let mut state = AppState::new();
    let mut last = 0i64;
    for i in 0..5 {
        let t = create_task_at(&mut state, req(&format!("task {i}"), i % 2 == 0), stamp()).unwrap();
        assert!(t.id > last);
        assert_eq!(t.id, last + 1);
        last = t.id;
    }
    assert_eq!(state.next_id(), 6);
}

#[test]
fn rejected_title_consumes_no_id() {
    let mut state = AppState::new();
    assert_eq!(
        create_task_at(&mut state, req("   ", true), stamp()),
        Err(ApiError::BadRequest("title is empty".to_string()))
    );
    assert_eq!(
        create_task_at(&mut state, req(&"x".repeat(101), true), stamp()),
        Err(ApiError::BadRequest("title is too long".to_string()))
    );
    assert_eq!(state.next_id(), 1);
    let t = create_task_at(&mut state, req("ok", true), stamp()).unwrap();
    assert_eq!(t.id, 1);
}

#[test]
fn unknown_ids_are_not_found() {
    let mut state = AppState::new();
    create_task_at(&mut state, req("one", false), stamp()).unwrap();
    for id in [-1i64, 0, 2, 3, i64::MAX, i64::MIN] {
        assert_eq!(get_task(&state, id), Err(ApiError::NotFound));
    }
}

#[test]
fn reads_are_idempotent() {
    let mut state = AppState::new();
    create_task_at(&mut state, req("read me", true), stamp()).unwrap();
    let a = get_task(&state, 1).unwrap();
    let b = get_task(&state, 1).unwrap();
    assert_eq!(a, b);
    assert_eq!(get_task(&state, 7), get_task(&state, 7));
}

#[test]
fn create_then_get_round_trip() {
    let mut state = AppState::new();
    let t = create_task_at(&mut state, req("\tWrite report \n", true), stamp()).unwrap();
    assert_eq!(
        t,
        Task { id: 1, title: "Write report".to_string(), completed: true, created_at: stamp() }
    );
    for i in 0..3 {
        create_task_at(&mut state, req(&format!("other {i}"), false), stamp()).unwrap();
    }
    assert_eq!(get_task(&state, 1).unwrap(), t);
}

#[test]
fn many_creates_give_distinct_retrievable_ids() {
    let mut state = AppState::new();
    let n = 50;
    let mut ids = Vec::new();
    for i in 0..n {
        let t = create_task(&mut state, req(&format!("job {i}"), false)).unwrap();
        ids.push(t.id);
    }
    let mut sorted = ids.clone();
    sorted.sort();
    sorted.dedup();
    assert_eq!(sorted.len(), n);
    for (i, id) in ids.iter().enumerate() {
        let t = get_task(&state, *id).unwrap();
        assert_eq!(t.title, format!("job {i}"));
    }
}

#[test]
fn title_length_limits() {
    assert_eq!(validate_title(&"a".repeat(100)), Ok(()));
    assert_eq!(validate_title(&format!("  {}  ", "a".repeat(100))), Ok(()));
    assert_eq!(validate_title("a"), Ok(()));
    assert_eq!(validate_title(&"é".repeat(100)), Ok(()));
    assert_eq!(
        validate_title(&"é".repeat(101)),
        Err(ApiError::BadRequest("title is too long".to_string()))
    );
    assert_eq!(validate_title(""), Err(ApiError::BadRequest("title is empty".to_string())));
    assert_eq!(validate_title(" \t\n "), Err(ApiError::BadRequest("title is empty".to_string())));
}

#[test]
fn error_messages() {
    assert_eq!(ApiError::NotFound.message(), "not found");
    assert_eq!(ApiError::BadRequest("title is empty".to_string()).message(), "bad request : title is empty");
    assert_eq!(ApiError::Internal("boom".to_string()).message(), "internal error : boom");
    assert_eq!(ApiError::NotFound.body().message, "not found");
    assert_eq!(RepoError::SimulatedFailure.message(), "RepoError OK");
    assert_eq!(
        ApiError::from_repo_error(RepoError::SimulatedFailure),
        ApiError::Internal("RepoError OK".to_string())
    );
    assert_eq!(
        ApiError::from_repo_error(RepoError::SimulatedFailure).message(),
        "internal error : RepoError OK"
    );
}

#[test]
fn simulated_failure_leaves_store_unchanged() {
    let mut repo = InMemoryTaskRepository::new();
    let t = Task { id: 4, title: "x".to_string(), completed: false, created_at: stamp() };
    assert_eq!(insert_task(&mut repo, &t, true), Err(RepoError::SimulatedFailure));
    assert_eq!(repo.find(4), None);
    assert_eq!(insert_task(&mut repo, &t, false), Ok(()));
    assert_eq!(repo.find(4), Some(t.clone()));
}

#[test]
fn store_overwrites_and_reads() {
    let mut repo = InMemoryTaskRepository::new();
    let a = Task { id: 2, title: "a".to_string(), completed: false, created_at: stamp() };
    let b = Task { id: 2, title: "b".to_string(), completed: true, created_at: stamp() };
    assert_eq!(TaskRepository::insert(&mut repo, a), Ok(()));
    assert_eq!(TaskRepository::insert(&mut repo, b.clone()), Ok(()));
    assert_eq!(TaskRepository::get(&repo, 2), Ok(Some(b)));
    assert_eq!(TaskRepository::get(&repo, 3), Ok(None));
}

#[test]
fn stored_id_counter_survives_store_failure() {
    let mut state = AppState::new();
    create_task_at(&mut state, req("first", false), stamp()).unwrap();
    let id = state.allocate_id();
    let t = Task { id, title: "lost".to_string(), completed: false, created_at: stamp() };
    assert_eq!(state.store(&t, true), Err(RepoError::SimulatedFailure));
    assert_eq!(get_task(&state, id), Err(ApiError::NotFound));
    let next = create_task_at(&mut state, req("third", false), stamp()).unwrap();
    assert_eq!(next.id, 3);
}

#[test]
fn failure_hook_through_create_consumes_the_id() {
    let mut state = AppState::new();
    let r = create_task_at_with_hook(&mut state, req(" doomed ", false), stamp(), true);
    assert_eq!(r, Err(ApiError::Internal("RepoError OK".to_string())));
    assert_eq!(state.next_id(), 2);
    assert_eq!(get_task(&state, 1), Err(ApiError::NotFound));
    let bad = create_task_at_with_hook(&mut state, req("", false), stamp(), true);
    assert_eq!(bad, Err(ApiError::BadRequest("title is empty".to_string())));
    assert_eq!(state.next_id(), 2);
    let t = create_task_at_with_hook(&mut state, req("kept", true), stamp(), false).unwrap();
    assert_eq!(t.id, 2);
    assert_eq!(get_task(&state, 2).unwrap(), t);
}

#[test]
fn unicode_white_space_is_trimmed() {
    let mut state = AppState::new();
    let t = create_task_at(&mut state, req("\u{3000}\u{a0} tea \u{2029}\u{85}", false), stamp()).unwrap();
    assert_eq!(t.title, "tea");
    assert_eq!(
        validate_title("\u{2000}\u{200a}\u{1680}\u{202f}\u{205f}"),
        Err(ApiError::BadRequest("title is empty".to_string()))
    );
    let inner = create_task_at(&mut state, req("a \u{3000} b", false), stamp()).unwrap();
    assert_eq!(inner.title, "a \u{3000} b");
}

#[test]
fn created_at_is_a_whole_utc_second() {
    let mut state = AppState::new();
    let t = create_task(&mut state, req("stamp", false)).unwrap();
    let c: Vec<char> = t.created_at.chars().collect();
    assert_eq!(c.len(), 20);
    for (i, ch) in c.iter().enumerate() {
        match i {
            4 | 7 => assert_eq!(*ch, '-'),
            10 => assert_eq!(*ch, 'T'),
            13 | 16 => assert_eq!(*ch, ':'),
            19 => assert_eq!(*ch, 'Z'),
            _ => assert!(ch.is_ascii_digit()),
        }
    }
    assert!(!t.created_at.contains('.'));
}
