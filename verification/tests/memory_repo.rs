use jjs::memory::{select_flagged, MemoryRepo};
use jjs::schema::{
    Invocation, InvocationPatch, NewInvocation, NewRun, NewUser, Outcome, RepoError, RunPatch,
};

fn sample_run(contest: &str, rejudge_id: i32) -> NewRun {
    NewRun {
        toolchain_id: "g++".to_string(),
        problem_id: "A".to_string(),
        rejudge_id,
        user_id: 7,
        contest_id: contest.to_string(),
    }
}

fn sample_inv(run_id: i32, state: i16) -> NewInvocation {
    NewInvocation {
        run_id,
        invoke_task: vec![1, 2, 3],
        state,
        outcome: Outcome::Headers(Vec::new()),
    }
}

#[test]
fn test_basic() {
    let mut repo = MemoryRepo::new();

    let john_id = uuid::Uuid::new_v4().as_u128();
    assert!(repo.run_load(228).is_err());
    assert!(repo.run_load(0).is_err());
    let new_run = NewRun {
        toolchain_id: "foo".to_string(),
        problem_id: "quux".to_string(),
        rejudge_id: 33,
        user_id: john_id,
        contest_id: "olymp".to_string(),
    };
    let inserted_run = repo.run_new(new_run).unwrap();
    assert_eq!(inserted_run.id, 0);
    let run_in_db = repo.run_load(0).unwrap();
    assert_eq!(inserted_run, run_in_db);
}

#[test]
fn test_patch() {
    let mut repo = MemoryRepo::new();
    let new_run = NewRun {
        toolchain_id: "0".to_string(),
        problem_id: "0".to_string(),
        rejudge_id: 0,
        user_id: uuid::Uuid::new_v4().as_u128(),
        contest_id: "cntst".to_string(),
    };
    repo.run_new(new_run).unwrap();
    let patch = RunPatch { rejudge_id: Some(4) };
    repo.run_update(0, patch).unwrap();
    let patched_run = repo.run_load(0).unwrap();
    // now let's check that all fields that must be updated are actually updated
    assert_eq!(patched_run.rejudge_id, 4);
}

#[test]
fn new_repo_has_builtin_users() {
    let repo = MemoryRepo::new();
    let root = repo.user_try_load_by_login("Global/Root").unwrap().unwrap();
    assert_eq!(root.id, 0);
    assert_eq!(root.password_hash, None);
    assert!(root.groups.is_empty());
    let guest = repo.user_try_load_by_login("Global/Guest").unwrap().unwrap();
    assert_eq!(guest.id, 1u128 << 96);
    assert_eq!(guest.username, "Global/Guest");
    assert!(repo.user_try_load_by_login("Global/Nobody").unwrap().is_none());
}

#[test]
fn default_repo_is_empty() {
    let repo = MemoryRepo::default();
    assert!(repo.user_try_load_by_login("Global/Root").unwrap().is_none());
    assert!(repo.run_select(None, None).unwrap().is_empty());
}

#[test]
fn user_ids_follow_creation_order() {
    let mut repo = MemoryRepo::new();
    let user = repo
        .user_new(NewUser {
            username: "alice".to_string(),
            password_hash: Some("h".to_string()),
            groups: vec!["Participants".to_string()],
        })
        .unwrap();
    assert_eq!(user.id, 2u128 << 96);
    assert_eq!(uuid::Uuid::from_u128(user.id), uuid::Uuid::from_fields(2, 0, 0, &[0; 8]));
    let loaded = repo.user_try_load_by_login("alice").unwrap().unwrap();
    assert_eq!(loaded, user);
}

#[test]
fn first_user_with_a_name_wins() {
    let mut repo = MemoryRepo::new();
    let first = repo
        .user_new(NewUser { username: "bob".to_string(), password_hash: None, groups: vec![] })
        .unwrap();
    repo.user_new(NewUser { username: "bob".to_string(), password_hash: Some("x".to_string()), groups: vec![] })
        .unwrap();
    let loaded = repo.user_try_load_by_login("bob").unwrap().unwrap();
    assert_eq!(loaded, first);
}

#[test]
fn run_try_load_of_missing_and_negative_ids() {
    let mut repo = MemoryRepo::new();
    repo.run_new(sample_run("c", 0)).unwrap();
    assert!(repo.run_try_load(0).unwrap().is_some());
    assert!(repo.run_try_load(1).unwrap().is_none());
    assert!(repo.run_try_load(-1).unwrap().is_none());
    assert_eq!(repo.run_load(-1), Err(RepoError::UnknownRun));
}

#[test]
fn run_update_without_change_and_of_unknown_run() {
    let mut repo = MemoryRepo::new();
    repo.run_new(sample_run("c", 5)).unwrap();
    repo.run_update(0, RunPatch { rejudge_id: None }).unwrap();
    assert_eq!(repo.run_load(0).unwrap().rejudge_id, 5);
    assert_eq!(repo.run_update(3, RunPatch { rejudge_id: Some(1) }), Err(RepoError::UnknownRun));
    assert_eq!(repo.run_update(-3, RunPatch { rejudge_id: Some(1) }), Err(RepoError::UnknownRun));
}

#[test]
fn run_delete_twice() {
    let mut repo = MemoryRepo::new();
    repo.run_new(sample_run("c", 0)).unwrap();
    repo.run_new(sample_run("d", 0)).unwrap();
    assert_eq!(repo.run_delete(0), Ok(()));
    assert_eq!(repo.run_load(0), Err(RepoError::UnknownRun));
    assert_eq!(repo.run_delete(0), Err(RepoError::RunAlreadyDeleted));
    assert_eq!(repo.run_delete(2), Err(RepoError::UnknownRun));
    assert_eq!(repo.run_delete(-1), Err(RepoError::UnknownRun));
    assert_eq!(repo.run_update(0, RunPatch { rejudge_id: Some(9) }), Err(RepoError::UnknownRun));
    // ids are not reused
    let third = repo.run_new(sample_run("e", 0)).unwrap();
    assert_eq!(third.id, 2);
    assert_eq!(repo.run_load(1).unwrap().contest_id, "d");
}

#[test]
fn run_select_cases() {
    let mut repo = MemoryRepo::new();
    for i in 0..4 {
        repo.run_new(sample_run("c", i)).unwrap();
    }
    repo.run_delete(1).unwrap();
    let all: Vec<i32> = repo.run_select(None, None).unwrap().iter().map(|r| r.id).collect();
    assert_eq!(all, vec![0, 2, 3]);
    // the limit counts ids, deleted ones included
    let first_two: Vec<i32> = repo.run_select(None, Some(2)).unwrap().iter().map(|r| r.id).collect();
    assert_eq!(first_two, vec![0]);
    let many: Vec<i32> = repo.run_select(None, Some(100)).unwrap().iter().map(|r| r.id).collect();
    assert_eq!(many, vec![0, 2, 3]);
    assert!(repo.run_select(None, Some(0)).unwrap().is_empty());
    assert!(repo.run_select(Some(2), Some(0)).unwrap().is_empty());
    let by_id = repo.run_select(Some(2), None).unwrap();
    assert_eq!(by_id.len(), 1);
    assert_eq!(by_id[0].id, 2);
    assert!(repo.run_select(Some(1), None).unwrap().is_empty());
    assert!(repo.run_select(Some(9), Some(5)).unwrap().is_empty());
}

#[test]
fn invocations_new_last_update() {
    let mut repo = MemoryRepo::new();
    let a = repo.inv_new(sample_inv(0, 1)).unwrap();
    let b = repo.inv_new(sample_inv(1, 1)).unwrap();
    let c = repo.inv_new(sample_inv(0, 2)).unwrap();
    assert_eq!((a.id, b.id, c.id), (0, 1, 2));
    assert_eq!(repo.inv_last(0).unwrap(), c);
    assert_eq!(repo.inv_last(1).unwrap(), b);
    assert_eq!(repo.inv_last(5), Err(RepoError::NoInvocationsForRun));
    repo.inv_update(1, InvocationPatch { state: Some(7) }).unwrap();
    let updated = repo.inv_last(1).unwrap();
    assert_eq!(updated.state, 7);
    assert_eq!(updated.invoke_task, vec![1, 2, 3]);
    repo.inv_update(1, InvocationPatch { state: None }).unwrap();
    assert_eq!(repo.inv_last(1).unwrap().state, 7);
    assert_eq!(repo.inv_update(3, InvocationPatch { state: Some(1) }), Err(RepoError::UnknownInvocation));
    assert_eq!(repo.inv_update(-1, InvocationPatch { state: Some(1) }), Err(RepoError::UnknownInvocation));
}

#[test]
fn outcome_headers_are_appended() {
    let mut repo = MemoryRepo::new();
    repo.inv_new(sample_inv(0, 1)).unwrap();
    repo.inv_new(NewInvocation {
        run_id: 0,
        invoke_task: vec![],
        state: 0,
        outcome: Outcome::Other("null".to_string()),
    })
    .unwrap();
    repo.inv_add_outcome_header(0, "{\"score\":1}".to_string()).unwrap();
    repo.inv_add_outcome_header(0, "{\"score\":2}".to_string()).unwrap();
    let inv = repo.inv_window(0, 1).remove(0);
    assert_eq!(
        inv.outcome,
        Outcome::Headers(vec!["{\"score\":1}".to_string(), "{\"score\":2}".to_string()])
    );
    assert_eq!(repo.inv_add_outcome_header(1, "{}".to_string()), Err(RepoError::OutcomeNotArray));
    assert_eq!(repo.inv_add_outcome_header(2, "{}".to_string()), Err(RepoError::UnknownInvocation));
    assert_eq!(repo.inv_add_outcome_header(-2, "{}".to_string()), Err(RepoError::UnknownInvocation));
}

#[test]
fn inv_window_and_find_waiting() {
    let mut repo = MemoryRepo::new();
    for i in 0..5 {
        repo.inv_new(sample_inv(i, (i % 2) as i16)).unwrap();
    }
    let ids = |v: &Vec<Invocation>| v.iter().map(|i| i.id).collect::<Vec<i32>>();
    assert_eq!(ids(&repo.inv_window(1, 3)), vec![1, 2, 3]);
    assert_eq!(ids(&repo.inv_window(3, 10)), vec![3, 4]);
    assert_eq!(ids(&repo.inv_window(7, 2)), Vec::<i32>::new());
    assert_eq!(ids(&repo.inv_window(0, u32::MAX)), vec![0, 1, 2, 3, 4]);

    let mut seen = 0;
    let found = repo
        .inv_find_waiting(1, 4, &mut |inv: Invocation| -> Result<bool, String> {
            seen += 1;
            Ok(inv.state == 0)
        })
        .unwrap();
    assert_eq!(ids(&found), vec![2, 4]);
    assert_eq!(seen, 4);

    let mut asked = Vec::new();
    let err = repo.inv_find_waiting(0, 5, &mut |inv: Invocation| -> Result<bool, String> {
        asked.push(inv.id);
        if inv.id >= 2 {
            Err(format!("bad task {}", inv.id))
        } else {
            Ok(true)
        }
    });
    assert_eq!(err, Err("bad task 2".to_string()));
    assert_eq!(asked, vec![0, 1, 2]);

    let window = repo.inv_window(0, 3);
    let picked = select_flagged(&window, &vec![true, false, true]);
    assert_eq!(ids(&picked), vec![0, 2]);
}

#[test]
fn find_waiting_on_fresh_repo_asks_nothing() {
    let repo = MemoryRepo::new();
    let mut calls = 0;
    let found = repo
        .inv_find_waiting(0, u32::MAX, &mut |_inv: Invocation| -> Result<bool, String> {
            calls += 1;
            Ok(true)
        })
        .unwrap();
    assert!(found.is_empty());
    assert_eq!(calls, 0);
    assert!(repo.inv_last(0).is_err());
}

#[test]
fn find_waiting_keeps_what_the_predicate_accepts() {
    let mut repo = MemoryRepo::new();
    for i in 0..6 {
        repo.inv_new(sample_inv(i, (i % 3) as i16)).unwrap();
    }
    let mut asked = Vec::new();
    let found = repo
        .inv_find_waiting(1, 4, &mut |inv: Invocation| -> Result<bool, String> {
            asked.push(inv.id);
            Ok(inv.state != 0)
        })
        .unwrap();
    assert_eq!(asked, vec![1, 2, 3, 4]);
    assert_eq!(found.iter().map(|i| i.id).collect::<Vec<i32>>(), vec![1, 2, 4]);
}
