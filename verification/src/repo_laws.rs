use vstd::prelude::*;

use crate::memory::{
    add_header_result, add_header_state, window_of,
    answered, flagged, first_user_named, inv_new_state, inv_record, inv_update_state, last_inv_of_run, live_runs, patched_run,
    run_delete_result, run_delete_state, run_load_result, run_record, run_new_state, run_slot, run_update_result,
    run_update_state, selected_runs, state_wf, user_new_state, user_record, RepoState,
};
use crate::schema::{OutcomeView, Invocation, InvocationView, InvocationId, InvocationPatch, NewInvocation, NewRun, NewUser, RepoError, Run, RunId, RunPatch};

verus! {

/// A run that was just stored can be loaded back under the id it was given,
/// unchanged, and every other id loads what it loaded before.
pub proof fn law_run_new_then_load(s: RepoState, data: NewRun, other: RunId)
    requires
        state_wf(s),
        s.runs.len() <= i32::MAX,
    ensures
        run_load_result(run_new_state(s, data), s.runs.len() as RunId)
            == Ok::<Run, RepoError>(run_record(data, s.runs.len() as RunId)),
        other != s.runs.len() ==> run_load_result(run_new_state(s, data), other) == run_load_result(s, other),
{
}

/// A new run gets an id that no run ever had: the number of slots, which
/// deletion does not lower.
pub proof fn law_run_ids_not_reused(s: RepoState, deleted: RunId, data: NewRun)
    requires
        state_wf(s),
    ensures
        run_delete_state(s, deleted).runs.len() == s.runs.len(),
        run_record(data, run_delete_state(s, deleted).runs.len() as RunId).id == s.runs.len() as RunId,
        forall|i: int| 0 <= i < s.runs.len() && #[trigger] s.runs[i] is Some ==> s.runs[i]->0.id != s.runs.len(),
{
}

/// A patch that sets the rejudge id of an existing run shows in the next
/// load of that run, with every other field kept; other runs are untouched.
pub proof fn law_run_update_then_load(s: RepoState, id: RunId, patch: RunPatch, other: RunId)
    requires
        state_wf(s),
        run_slot(s, id as int) is Some,
    ensures
        run_update_result(s, id) == Ok::<(), RepoError>(()),
        run_load_result(run_update_state(s, id, patch), id) == Ok::<Run, RepoError>(
            patched_run(run_slot(s, id as int)->0, patch),
        ),
        patch.rejudge_id matches Some(x) ==> run_slot(run_update_state(s, id, patch), id as int)->0.rejudge_id == x,
        patch.rejudge_id is None ==> run_slot(run_update_state(s, id, patch), id as int) == run_slot(s, id as int),
        ({
            let before = run_slot(s, id as int)->0;
            let after = run_slot(run_update_state(s, id, patch), id as int)->0;
            &&& after.id == before.id
            &&& after.toolchain_id == before.toolchain_id
            &&& after.problem_id == before.problem_id
            &&& after.user_id == before.user_id
            &&& after.contest_id == before.contest_id
        }),
        run_update_state(s, id, patch).runs.len() == s.runs.len(),
        run_update_state(s, id, patch).invs == s.invs,
        run_update_state(s, id, patch).users == s.users,
        patched_run(run_slot(s, id as int)->0, patch).id == id,
        other != id ==> run_slot(run_update_state(s, id, patch), other as int) == run_slot(s, other as int),
{
}

/// A deleted run cannot be loaded any more, and deleting it again is
/// refused as already deleted; an update of it is refused as unknown.
pub proof fn law_run_delete_then_load(s: RepoState, id: RunId, patch: RunPatch)
    requires
        state_wf(s),
        run_delete_result(s, id) == Ok::<(), RepoError>(()),
    ensures
        run_load_result(run_delete_state(s, id), id) == Err::<Run, RepoError>(RepoError::UnknownRun),
        run_delete_result(run_delete_state(s, id), id) == Err::<(), RepoError>(RepoError::RunAlreadyDeleted),
        run_update_result(run_delete_state(s, id), id) == Err::<(), RepoError>(RepoError::UnknownRun),
        run_update_state(run_delete_state(s, id), id, patch) == run_delete_state(s, id),
{
}

/// The present runs, in order: each present run is among them.
proof fn lemma_live_runs_contains(runs: Seq<Option<Run>>, i: int)
    requires
        0 <= i < runs.len(),
        runs[i] is Some,
    ensures
        live_runs(runs).contains(runs[i]->0),
    decreases runs.len(),
{
    if i == runs.len() - 1 {
        assert(live_runs(runs).last() == runs[i]->0);
    } else {
        lemma_live_runs_contains(runs.drop_last(), i);
        let r = live_runs(runs.drop_last());
        let k: int = choose|k: int| 0 <= k < r.len() && r[k] == runs[i]->0;
        match runs.last() {
            Some(x) => assert(live_runs(runs)[k] == runs[i]->0),
            None => {},
        }
    }
}

/// Every item of the present runs is a stored run.
proof fn lemma_live_runs_only_present(runs: Seq<Option<Run>>, k: int)
    requires
        0 <= k < live_runs(runs).len(),
    ensures
        exists|i: int| 0 <= i < runs.len() && runs[i] == Some(#[trigger] live_runs(runs)[k]),
    decreases runs.len(),
{
    let rest = live_runs(runs.drop_last());
    if k < rest.len() {
        lemma_live_runs_only_present(runs.drop_last(), k);
        let i: int = choose|i: int| 0 <= i < runs.drop_last().len() && runs.drop_last()[i] == Some(rest[k]);
        match runs.last() {
            Some(x) => assert(live_runs(runs)[k] == rest[k]),
            None => {},
        }
        assert(runs[i] == Some(live_runs(runs)[k]));
    } else {
        assert(runs[runs.len() - 1] == Some(live_runs(runs)[k]));
    }
}

/// Selecting without an id and without a limit gives exactly the stored
/// runs: each present run is in the answer, and each answer is a present run.
pub proof fn law_run_select_all(s: RepoState)
    requires
        state_wf(s),
    ensures
        selected_runs(s, None, None) == live_runs(s.runs),
        forall|i: int| 0 <= i < s.runs.len() && #[trigger] s.runs[i] is Some
            ==> selected_runs(s, None, None).contains(s.runs[i]->0),
        forall|k: int| 0 <= k < selected_runs(s, None, None).len()
            ==> exists|i: int| 0 <= i < s.runs.len() && s.runs[i] == Some(#[trigger] selected_runs(s, None, None)[k]),
{
    assert(s.runs.take(s.runs.len() as int) =~= s.runs);
    assert forall|i: int| 0 <= i < s.runs.len() && #[trigger] s.runs[i] is Some
        implies selected_runs(s, None, None).contains(s.runs[i]->0) by {
        lemma_live_runs_contains(s.runs, i);
    }
    assert forall|k: int| 0 <= k < selected_runs(s, None, None).len()
        implies exists|i: int| 0 <= i < s.runs.len() && s.runs[i] == Some(#[trigger] selected_runs(s, None, None)[k]) by {
        lemma_live_runs_only_present(s.runs, k);
    }
}

/// Selecting by id gives the run that loading that id gives, or nothing.
pub proof fn law_run_select_by_id(s: RepoState, id: RunId, limit: Option<u32>)
    requires
        limit != Some(0u32),
    ensures
        selected_runs(s, Some(id), limit) == (match run_load_result(s, id) {
            Ok(r) => seq![r],
            Err(_) => Seq::<Run>::empty(),
        }),
{
}

/// A loaded run carries the id it was loaded by.
pub proof fn law_loaded_run_has_its_id(s: RepoState, id: RunId)
    requires
        state_wf(s),
    ensures
        run_load_result(s, id) matches Ok(r) ==> r.id == id,
{
}

/// The present runs of slots that carry their positions come out in
/// increasing id order, each id below the number of slots.
proof fn lemma_live_runs_ids(runs: Seq<Option<Run>>)
    requires
        forall|i: int| 0 <= i < runs.len() && #[trigger] runs[i] is Some ==> runs[i]->0.id == i,
    ensures
        forall|j: int, k: int| 0 <= j < k < live_runs(runs).len() ==> live_runs(runs)[j].id < live_runs(runs)[k].id,
        forall|j: int| 0 <= j < live_runs(runs).len() ==> 0 <= #[trigger] live_runs(runs)[j].id < runs.len(),
    decreases runs.len(),
{
    if runs.len() > 0 {
        let prefix = runs.drop_last();
        assert forall|i: int| 0 <= i < prefix.len() && #[trigger] prefix[i] is Some implies prefix[i]->0.id == i by {
            assert(prefix[i] == runs[i]);
        }
        lemma_live_runs_ids(prefix);
        let rest = live_runs(prefix);
        let live = live_runs(runs);
        match runs.last() {
            Some(r) => {
                assert(runs[runs.len() - 1] is Some);
                assert(r.id == runs.len() - 1);
                assert(live == rest.push(r));
                assert forall|j: int| 0 <= j < live.len() implies 0 <= #[trigger] live[j].id < runs.len() by {
                    if j < rest.len() {
                        assert(live[j] == rest[j]);
                    }
                }
                assert forall|j: int, k: int| 0 <= j < k < live.len() implies live[j].id < live[k].id by {
                    assert(live[j] == rest[j]);
                    if k < rest.len() {
                        assert(live[k] == rest[k]);
                    }
                }
            },
            None => {
                assert(live == rest);
            },
        }
    }
}

/// Selected runs come out in strictly increasing id order.
pub proof fn law_run_select_ids_increase(s: RepoState, with_run_id: Option<RunId>, limit: Option<u32>)
    requires
        state_wf(s),
    ensures
        forall|j: int, k: int| 0 <= j < k < selected_runs(s, with_run_id, limit).len()
            ==> selected_runs(s, with_run_id, limit)[j].id < selected_runs(s, with_run_id, limit)[k].id,
{
    if limit != Some(0u32) && with_run_id is None {
        let cnt: int = match limit {
            Some(l) => if l < s.runs.len() { l as int } else { s.runs.len() as int },
            None => s.runs.len() as int,
        };
        let prefix = s.runs.take(cnt);
        assert forall|i: int| 0 <= i < prefix.len() && #[trigger] prefix[i] is Some implies prefix[i]->0.id == i by {
            assert(prefix[i] == s.runs[i]);
        }
        lemma_live_runs_ids(prefix);
    }
}

/// Where the predicate of a search answers `Ok(accept(x))` for every `x`,
/// the search keeps exactly the window items that `accept` holds of, in
/// order.
pub proof fn law_find_waiting_keeps_accepted<E, F: FnMut(Invocation) -> Result<bool, E>>(
    f: F,
    window: Seq<InvocationView>,
    args: Seq<Invocation>,
    flags: Seq<bool>,
    accept: spec_fn(InvocationView) -> bool,
)
    requires
        flags.len() == window.len(),
        answered(f, window, args, flags),
        forall|x: Invocation, o: Result<bool, E>| #[trigger] call_ensures(f, (x,), o) ==> o == Ok::<bool, E>(accept(x@)),
    ensures
        flagged(window, flags) == window.filter(accept),
    decreases window.len(),
{
    reveal_with_fuel(Seq::<_>::filter, 1);
    if window.len() > 0 {
        let n: int = window.len() - 1;
        assert(answered(f, window.drop_last(), args.take(n), flags.take(n))) by {
            assert forall|i: int| 0 <= i < n implies {
                &&& (#[trigger] args.take(n)[i])@ == window.drop_last()[i]
                &&& call_ensures(f, (args.take(n)[i],), Ok::<bool, E>(flags.take(n)[i]))
            } by {
                assert(args.take(n)[i] == args[i]);
                assert(flags.take(n)[i] == flags[i]);
                assert(args[i]@ == window[i]);
            }
        }
        law_find_waiting_keeps_accepted(f, window.drop_last(), args.take(n), flags.take(n), accept);
        assert(args[n]@ == window[n]);
        assert(call_ensures(f, (args[n],), Ok::<bool, E>(flags[n])));
        assert(flags[n] == accept(window.last()));
    }
}

/// After an invocation is stored, it is the last invocation of its run.
pub proof fn law_inv_new_then_last(s: RepoState, data: NewInvocation)
    requires
        state_wf(s),
        s.invs.len() <= i32::MAX,
    ensures
        last_inv_of_run(inv_new_state(s, data).invs, data.run_id) == Some(s.invs.len() as int),
        inv_new_state(s, data).invs[s.invs.len() as int] == inv_record(data, s.invs.len() as InvocationId),
{
    assert(inv_new_state(s, data).invs.drop_last() =~= s.invs);
}

/// An update of an invocation changes its state, where the patch gives one,
/// and nothing else.
pub proof fn law_inv_update_changes_only_state(s: RepoState, id: InvocationId, patch: InvocationPatch, other: int)
    requires
        state_wf(s),
        0 <= id < s.invs.len(),
        s.invs.len() <= i32::MAX,
    ensures
        ({
            let after = inv_update_state(s, id, patch).invs[id as int];
            let before = s.invs[id as int];
            &&& after.id == before.id
            &&& after.run_id == before.run_id
            &&& after.invoke_task == before.invoke_task
            &&& after.outcome == before.outcome
            &&& after.state == (match patch.state {
                Some(x) => x,
                None => before.state,
            })
        }),
        0 <= other < s.invs.len() && other != id ==> inv_update_state(s, id, patch).invs[other] == s.invs[other],
        inv_update_state(s, id, patch).runs == s.runs,
        inv_update_state(s, id, patch).users == s.users,
{
}

/// A user stored under a name no earlier user has is the one that loading by
/// that name finds.
pub proof fn law_user_new_then_load(s: RepoState, data: NewUser)
    requires
        state_wf(s),
        s.users.len() <= u32::MAX,
        first_user_named(s.users, data.username@) is None,
    ensures
        first_user_named(user_new_state(s, data).users, data.username@) == Some(s.users.len() as int),
        user_new_state(s, data).users[s.users.len() as int] == user_record(data, s.users.len() as int),
{
    assert(user_new_state(s, data).users.drop_last() =~= s.users);
}

/// Loading by name finds the first user with that name, whatever users are
/// stored after it.
pub proof fn law_user_load_first_wins(s: RepoState, data: NewUser)
    requires
        state_wf(s),
        first_user_named(s.users, data.username@) is Some,
    ensures
        first_user_named(user_new_state(s, data).users, data.username@)
            == first_user_named(s.users, data.username@),
{
    assert(user_new_state(s, data).users.drop_last() =~= s.users);
}


/// A stored run keeps every field of the data it was made from; only the id
/// is assigned, and it is the number of ids given out before. Loading that
/// id gives it back.
pub proof fn law_run_new_keeps_data(s: RepoState, data: NewRun)
    requires
        state_wf(s),
        s.runs.len() <= i32::MAX,
    ensures
        run_load_result(run_new_state(s, data), s.runs.len() as RunId) matches Ok(r) && {
            &&& r.id as int == s.runs.len()
            &&& r.toolchain_id == data.toolchain_id
            &&& r.problem_id == data.problem_id
            &&& r.rejudge_id == data.rejudge_id
            &&& r.user_id == data.user_id
            &&& r.contest_id == data.contest_id
        },
        ({
            let r = run_record(data, s.runs.len() as RunId);
            &&& r.id as int == s.runs.len()
            &&& r.toolchain_id == data.toolchain_id
            &&& r.problem_id == data.problem_id
            &&& r.rejudge_id == data.rejudge_id
            &&& r.user_id == data.user_id
            &&& r.contest_id == data.contest_id
        }),
{
}

/// A stored user keeps the name, password hash and groups it was made with;
/// only the id is assigned: the UUID whose first field is the number of users
/// before. The users stored before are unchanged.
pub proof fn law_user_new_keeps_data(s: RepoState, data: NewUser)
    requires
        state_wf(s),
        s.users.len() <= u32::MAX,
    ensures
        ({
            let u = user_new_state(s, data).users[s.users.len() as int];
            &&& u == user_record(data, s.users.len() as int)
            &&& u.id as int == crate::ids::uuid_of_first_field(s.users.len() as int)
            &&& u.username == data.username@
            &&& (match data.password_hash {
                Some(h) => u.password_hash == Some(h@),
                None => u.password_hash is None,
            })
            &&& u.groups.len() == data.groups.len()
            &&& forall|i: int| 0 <= i < data.groups.len() ==> #[trigger] u.groups[i] == data.groups@[i]@
        }),
        user_new_state(s, data).users.len() == s.users.len() + 1,
        forall|i: int| 0 <= i < s.users.len() ==> #[trigger] user_new_state(s, data).users[i] == s.users[i],
{
}

/// Every slot of a sequence in which every slot is present gives one run.
proof fn lemma_live_runs_all_present(runs: Seq<Option<Run>>)
    requires
        forall|i: int| 0 <= i < runs.len() ==> #[trigger] runs[i] is Some,
    ensures
        live_runs(runs).len() == runs.len(),
    decreases runs.len(),
{
    if runs.len() > 0 {
        let prefix = runs.drop_last();
        assert forall|i: int| 0 <= i < prefix.len() implies #[trigger] prefix[i] is Some by {
            assert(prefix[i] == runs[i]);
        }
        lemma_live_runs_all_present(prefix);
        assert(runs[runs.len() - 1] is Some);
    }
}

/// Selecting with a limit `l` (no id): every present run whose id is below
/// `l` is in the answer, every run in the answer is a present run with an
/// id below `l`, and where no run was deleted and `l` is at most the number
/// of ids, exactly `l` runs come out.
pub proof fn law_run_select_limit(s: RepoState, l: u32)
    requires
        state_wf(s),
        l > 0,
    ensures
        forall|i: int| 0 <= i < s.runs.len() && i < l && #[trigger] s.runs[i] is Some
            ==> selected_runs(s, None, Some(l)).contains(s.runs[i]->0),
        forall|k: int| 0 <= k < selected_runs(s, None, Some(l)).len() ==> {
            &&& (#[trigger] selected_runs(s, None, Some(l))[k]).id < l
            &&& exists|i: int| 0 <= i < s.runs.len() && s.runs[i] == Some(selected_runs(s, None, Some(l))[k])
        },
        (forall|i: int| 0 <= i < s.runs.len() ==> #[trigger] s.runs[i] is Some) && l <= s.runs.len()
            ==> selected_runs(s, None, Some(l)).len() == l,
{
    let cnt: int = if l < s.runs.len() { l as int } else { s.runs.len() as int };
    let prefix = s.runs.take(cnt);
    let sel = selected_runs(s, None, Some(l));
    assert(sel == live_runs(prefix));
    assert forall|i: int| 0 <= i < prefix.len() && #[trigger] prefix[i] is Some implies prefix[i]->0.id == i by {
        assert(prefix[i] == s.runs[i]);
    }
    lemma_live_runs_ids(prefix);
    assert forall|i: int| 0 <= i < s.runs.len() && i < l && #[trigger] s.runs[i] is Some
        implies sel.contains(s.runs[i]->0) by {
        assert(prefix[i] == s.runs[i]);
        lemma_live_runs_contains(prefix, i);
    }
    assert forall|k: int| 0 <= k < sel.len() implies {
        &&& (#[trigger] sel[k]).id < l
        &&& exists|i: int| 0 <= i < s.runs.len() && s.runs[i] == Some(sel[k])
    } by {
        lemma_live_runs_only_present(prefix, k);
        let i: int = choose|i: int| 0 <= i < prefix.len() && prefix[i] == Some(#[trigger] live_runs(prefix)[k]);
        assert(s.runs[i] == prefix[i]);
    }
    if (forall|i: int| 0 <= i < s.runs.len() ==> #[trigger] s.runs[i] is Some) && l <= s.runs.len() {
        assert forall|i: int| 0 <= i < prefix.len() implies #[trigger] prefix[i] is Some by {
            assert(prefix[i] == s.runs[i]);
        }
        lemma_live_runs_all_present(prefix);
    }
}


/// A stored invocation keeps every field of the data it was made from; only
/// the id is assigned: the number of invocations before. Runs and users are
/// untouched.
pub proof fn law_inv_new_keeps_data(s: RepoState, data: NewInvocation)
    requires
        state_wf(s),
        s.invs.len() <= i32::MAX,
    ensures
        ({
            let i = inv_new_state(s, data).invs[s.invs.len() as int];
            &&& i.id as int == s.invs.len()
            &&& i.run_id == data.run_id
            &&& i.invoke_task == data.invoke_task@
            &&& i.state == data.state
            &&& i.outcome == data.outcome@
        }),
        inv_new_state(s, data).invs.len() == s.invs.len() + 1,
        forall|k: int| 0 <= k < s.invs.len() ==> #[trigger] inv_new_state(s, data).invs[k] == s.invs[k],
        inv_new_state(s, data).runs == s.runs,
        inv_new_state(s, data).users == s.users,
{
}

/// The last invocation of a run is one of that run, and no later invocation
/// belongs to it; where there is none, no invocation belongs to the run.
pub proof fn law_inv_last_is_last_of_run(invs: Seq<InvocationView>, run_id: RunId)
    ensures
        match last_inv_of_run(invs, run_id) {
            Some(i) => {
                &&& 0 <= i < invs.len()
                &&& invs[i].run_id == run_id
                &&& forall|j: int| i < j < invs.len() ==> #[trigger] invs[j].run_id != run_id
            },
            None => forall|j: int| 0 <= j < invs.len() ==> #[trigger] invs[j].run_id != run_id,
        },
    decreases invs.len(),
{
    if invs.len() > 0 {
        let prefix = invs.drop_last();
        law_inv_last_is_last_of_run(prefix, run_id);
        if invs.last().run_id != run_id {
            assert forall|j: int| 0 <= j < invs.len() - 1 implies #[trigger] invs[j] == prefix[j] by {}
        }
    }
}

/// The window of `offset` and `count` holds the invocations from position
/// `offset` on, in order, at most `count` of them, and all of them where
/// fewer are left.
pub proof fn law_window_items(invs: Seq<InvocationView>, offset: u32, count: u32)
    ensures
        ({
            let w = window_of(invs, offset, count);
            let left: int = if offset < invs.len() { invs.len() - offset } else { 0 };
            &&& w.len() == if count < left { count as int } else { left }
            &&& forall|k: int| 0 <= k < w.len() ==> #[trigger] w[k] == invs[offset + k]
        }),
{
}

/// Adding a header to an invocation whose outcome is an array appends it to
/// that array and changes nothing else; otherwise nothing changes.
pub proof fn law_add_header_appends(s: RepoState, id: InvocationId, header: Seq<char>)
    requires
        state_wf(s),
    ensures
        (0 <= id < s.invs.len() && s.invs[id as int].outcome is Headers) ==> {
            let after = add_header_state(s, id, header).invs[id as int];
            &&& add_header_result(s, id) is Ok
            &&& after.outcome == OutcomeView::Headers((s.invs[id as int].outcome->Headers_0).push(header))
            &&& after.id == s.invs[id as int].id
            &&& after.run_id == s.invs[id as int].run_id
            &&& after.invoke_task == s.invs[id as int].invoke_task
            &&& after.state == s.invs[id as int].state
        },
        add_header_state(s, id, header).invs.len() == s.invs.len(),
        forall|k: int| 0 <= k < s.invs.len() && k != id ==> #[trigger] add_header_state(s, id, header).invs[k] == s.invs[k],
        !(0 <= id < s.invs.len() && s.invs[id as int].outcome is Headers) ==> {
            &&& add_header_result(s, id) is Err
            &&& add_header_state(s, id, header) == s
        },
{
}

/// The user found by a name carries that name, and no earlier user does;
/// where none is found, no user carries it.
pub proof fn law_first_user_named(users: Seq<crate::schema::UserView>, login: Seq<char>)
    ensures
        match first_user_named(users, login) {
            Some(i) => {
                &&& 0 <= i < users.len()
                &&& users[i].username == login
                &&& forall|j: int| 0 <= j < i ==> #[trigger] users[j].username != login
            },
            None => forall|j: int| 0 <= j < users.len() ==> #[trigger] users[j].username != login,
        },
    decreases users.len(),
{
    if users.len() > 0 {
        let prefix = users.drop_last();
        law_first_user_named(prefix, login);
        assert forall|j: int| 0 <= j < users.len() - 1 implies #[trigger] users[j] == prefix[j] by {}
    }
}

} // verus!
