use vstd::prelude::*;

use crate::ids::{uuid_from_fields, uuid_of_fields, uuid_of_first_field};
use crate::schema::{
    Invocation, InvocationId, InvocationPatch, InvocationView, NewInvocation, NewRun, NewUser,
    Outcome, OutcomeView, RepoError, Run, RunId, RunPatch, User, UserView,
};

verus! {

/// The mathematical state of a [`MemoryRepo`]: runs by id (`None` where a run
/// was deleted), invocations by id and users in order of creation.
pub struct RepoState {
    pub runs: Seq<Option<Run>>,
    pub invs: Seq<InvocationView>,
    pub users: Seq<UserView>,
}

/// The views of a sequence of invocations.
pub open spec fn inv_views(v: Seq<Invocation>) -> Seq<InvocationView> {
    v.map_values(|i: Invocation| i@)
}

/// The views of a sequence of users.
pub open spec fn user_views(v: Seq<User>) -> Seq<UserView> {
    v.map_values(|u: User| u@)
}

/// What every reachable repository state satisfies: each stored record
/// carries the id of its position, and the counts fit the id types.
pub open spec fn state_wf(s: RepoState) -> bool {
    &&& s.runs.len() <= i32::MAX + 1
    &&& s.invs.len() <= i32::MAX + 1
    &&& s.users.len() <= u32::MAX + 1
    &&& forall|i: int| 0 <= i < s.runs.len() && #[trigger] s.runs[i] is Some ==> s.runs[i]->0.id == i
    &&& forall|i: int| 0 <= i < s.invs.len() ==> #[trigger] s.invs[i].id == i
    &&& forall|i: int| 0 <= i < s.users.len() ==> #[trigger] s.users[i].id == uuid_of_first_field(i)
}

/// The run stored under `id`, if any.
pub open spec fn run_slot(s: RepoState, id: int) -> Option<Run> {
    if 0 <= id < s.runs.len() {
        s.runs[id]
    } else {
        None
    }
}

/// The run that `run_new` stores for `data` under `id`.
pub open spec fn run_record(data: NewRun, id: RunId) -> Run {
    Run {
        id: id,
        toolchain_id: data.toolchain_id,
        problem_id: data.problem_id,
        rejudge_id: data.rejudge_id,
        user_id: data.user_id,
        contest_id: data.contest_id,
    }
}

/// A run with a patch applied.
pub open spec fn patched_run(r: Run, p: RunPatch) -> Run {
    match p.rejudge_id {
        Some(x) => Run { rejudge_id: x, ..r },
        None => r,
    }
}

/// The runs that are present in `s`, in order, deleted slots left out.
pub open spec fn live_runs(s: Seq<Option<Run>>) -> Seq<Run>
    decreases s.len(),
{
    if s.len() == 0 {
        Seq::empty()
    } else {
        let rest = live_runs(s.drop_last());
        match s.last() {
            Some(r) => rest.push(r),
            None => rest,
        }
    }
}

/// What `run_select` returns: nothing for a limit of zero; the run with the
/// given id, if it exists; else the present runs among the first `limit`
/// slots (all slots without a limit).
pub open spec fn selected_runs(s: RepoState, with_run_id: Option<RunId>, limit: Option<u32>) -> Seq<Run> {
    if limit == Some(0u32) {
        Seq::empty()
    } else {
        match with_run_id {
            Some(id) => match run_slot(s, id as int) {
                Some(r) => seq![r],
                None => Seq::empty(),
            },
            None => {
                let cnt = match limit {
                    Some(l) => if l < s.runs.len() { l as int } else { s.runs.len() as int },
                    None => s.runs.len() as int,
                };
                live_runs(s.runs.take(cnt))
            },
        }
    }
}

/// The invocation that `inv_new` stores for `data` under `id`.
pub open spec fn inv_record(data: NewInvocation, id: InvocationId) -> InvocationView {
    InvocationView {
        id: id,
        run_id: data.run_id,
        invoke_task: data.invoke_task@,
        state: data.state,
        outcome: data.outcome@,
    }
}

/// The invocations that `offset` and `count` select: skip `offset`, then take
/// at most `count`.
pub open spec fn window_of(invs: Seq<InvocationView>, offset: u32, count: u32) -> Seq<InvocationView> {
    let lo: int = if offset < invs.len() { offset as int } else { invs.len() as int };
    let hi: int = if lo + count < invs.len() { lo + count } else { invs.len() as int };
    invs.subrange(lo, hi)
}

/// The items whose flag is set, in order.
pub open spec fn flagged(items: Seq<InvocationView>, flags: Seq<bool>) -> Seq<InvocationView>
    decreases items.len(),
{
    if items.len() == 0 {
        Seq::empty()
    } else {
        let rest = flagged(items.drop_last(), flags.take(items.len() - 1));
        if flags[items.len() - 1] {
            rest.push(items.last())
        } else {
            rest
        }
    }
}

/// The position of the last invocation of `run_id`, if there is one.
pub open spec fn last_inv_of_run(invs: Seq<InvocationView>, run_id: RunId) -> Option<int>
    decreases invs.len(),
{
    if invs.len() == 0 {
        None
    } else if invs.last().run_id == run_id {
        Some(invs.len() - 1)
    } else {
        last_inv_of_run(invs.drop_last(), run_id)
    }
}

/// An invocation with a patch applied.
pub open spec fn patched_inv(i: InvocationView, p: InvocationPatch) -> InvocationView {
    match p.state {
        Some(s) => InvocationView { state: s, ..i },
        None => i,
    }
}

/// The user that `user_new` stores for `data` at position `index`.
pub open spec fn user_record(data: NewUser, index: int) -> UserView {
    UserView {
        id: uuid_of_first_field(index) as u128,
        username: data.username@,
        password_hash: crate::schema::opt_str_view(data.password_hash),
        groups: data.groups.deep_view(),
    }
}

/// The position of the first user named `login`, if there is one.
pub open spec fn first_user_named(users: Seq<UserView>, login: Seq<char>) -> Option<int>
    decreases users.len(),
{
    if users.len() == 0 {
        None
    } else {
        match first_user_named(users.drop_last(), login) {
            Some(i) => Some(i),
            None => if users.last().username == login {
                Some(users.len() - 1)
            } else {
                None
            },
        }
    }
}

/// The state after `run_new(data)`.
pub open spec fn run_new_state(s: RepoState, data: NewRun) -> RepoState {
    RepoState { runs: s.runs.push(Some(run_record(data, s.runs.len() as RunId))), ..s }
}

/// What `run_load` answers.
pub open spec fn run_load_result(s: RepoState, id: RunId) -> Result<Run, RepoError> {
    match run_slot(s, id as int) {
        Some(run) => Ok(run),
        None => Err(RepoError::UnknownRun),
    }
}

/// What `run_update` answers.
pub open spec fn run_update_result(s: RepoState, id: RunId) -> Result<(), RepoError> {
    if run_slot(s, id as int) is Some {
        Ok(())
    } else {
        Err(RepoError::UnknownRun)
    }
}

/// The state after `run_update(id, patch)`.
pub open spec fn run_update_state(s: RepoState, id: RunId, patch: RunPatch) -> RepoState {
    match run_slot(s, id as int) {
        Some(run) => RepoState { runs: s.runs.update(id as int, Some(patched_run(run, patch))), ..s },
        None => s,
    }
}

/// What `run_delete` answers.
pub open spec fn run_delete_result(s: RepoState, id: RunId) -> Result<(), RepoError> {
    if 0 <= id < s.runs.len() {
        if s.runs[id as int] is Some {
            Ok(())
        } else {
            Err(RepoError::RunAlreadyDeleted)
        }
    } else {
        Err(RepoError::UnknownRun)
    }
}

/// The state after `run_delete(id)`.
pub open spec fn run_delete_state(s: RepoState, id: RunId) -> RepoState {
    if run_delete_result(s, id) is Ok {
        RepoState { runs: s.runs.update(id as int, None), ..s }
    } else {
        s
    }
}

/// The state after `inv_new(data)`.
pub open spec fn inv_new_state(s: RepoState, data: NewInvocation) -> RepoState {
    RepoState { invs: s.invs.push(inv_record(data, s.invs.len() as InvocationId)), ..s }
}

/// Whether `inv_update` takes the id: it must lie below the number of
/// invocations read as an `i32`, which wraps to `i32::MIN` (so that no id is
/// taken) once the number reaches 2^31.
pub open spec fn inv_update_takes(s: RepoState, id: InvocationId) -> bool {
    0 <= id < s.invs.len() && s.invs.len() <= i32::MAX
}

/// What `inv_update` answers.
pub open spec fn inv_update_result(s: RepoState, id: InvocationId) -> Result<(), RepoError> {
    if inv_update_takes(s, id) {
        Ok(())
    } else {
        Err(RepoError::UnknownInvocation)
    }
}

/// The state after `inv_update(id, patch)`.
pub open spec fn inv_update_state(s: RepoState, id: InvocationId, patch: InvocationPatch) -> RepoState {
    if inv_update_takes(s, id) {
        RepoState { invs: s.invs.update(id as int, patched_inv(s.invs[id as int], patch)), ..s }
    } else {
        s
    }
}

/// The outcome with one more header (a JSON text) appended to its array.
pub open spec fn outcome_with_header(o: OutcomeView, header: Seq<char>) -> OutcomeView {
    match o {
        OutcomeView::Headers(hs) => OutcomeView::Headers(hs.push(header)),
        OutcomeView::Other(t) => OutcomeView::Other(t),
    }
}

/// What `inv_add_outcome_header` answers.
pub open spec fn add_header_result(s: RepoState, id: InvocationId) -> Result<(), RepoError> {
    if 0 <= id < s.invs.len() {
        if s.invs[id as int].outcome is Headers {
            Ok(())
        } else {
            Err(RepoError::OutcomeNotArray)
        }
    } else {
        Err(RepoError::UnknownInvocation)
    }
}

/// The state after `inv_add_outcome_header(id, header)`.
pub open spec fn add_header_state(s: RepoState, id: InvocationId, header: Seq<char>) -> RepoState {
    if add_header_result(s, id) is Ok {
        let inv = s.invs[id as int];
        RepoState {
            invs: s.invs.update(id as int, InvocationView { outcome: outcome_with_header(inv.outcome, header), ..inv }),
            ..s
        }
    } else {
        s
    }
}

/// The state after `user_new(data)`.
pub open spec fn user_new_state(s: RepoState, data: NewUser) -> RepoState {
    RepoState { users: s.users.push(user_record(data, s.users.len() as int)), ..s }
}

/// Whether `args` hold the first items of `window`, in order, and the
/// predicate `f` may answer `Ok(flags[i])` when it is asked about `args[i]`.
pub open spec fn answered<E, F: FnMut(Invocation) -> Result<bool, E>>(
    f: F,
    window: Seq<InvocationView>,
    args: Seq<Invocation>,
    flags: Seq<bool>,
) -> bool {
    &&& args.len() == flags.len()
    &&& flags.len() <= window.len()
    &&& forall|i: int| 0 <= i < flags.len() ==> {
        &&& (#[trigger] args[i])@ == window[i]
        &&& call_ensures(f, (args[i],), Ok::<bool, E>(flags[i]))
    }
}

/// A repository that keeps runs, invocations and users in memory.
pub struct MemoryRepo {
    runs: Vec<Option<Run>>,
    invs: Vec<Invocation>,
    users: Vec<User>,
}

impl View for MemoryRepo {
    type V = RepoState;

    closed spec fn view(&self) -> RepoState {
        RepoState { runs: self.runs@, invs: inv_views(self.invs@), users: user_views(self.users@) }
    }
}

impl MemoryRepo {
    #[verifier::type_invariant]
    closed spec fn inv(&self) -> bool {
        state_wf(self@)
    }

    /// An empty repository: no runs, no invocations, no users.
    pub fn empty() -> (r: MemoryRepo)
        ensures
            r@.runs.len() == 0,
            r@.invs.len() == 0,
            r@.users.len() == 0,
            state_wf(r@),
    {
        let r = MemoryRepo { runs: Vec::new(), invs: Vec::new(), users: Vec::new() };
        assert(r@.invs =~= Seq::empty());
        assert(r@.users =~= Seq::empty());
        r
    }
}

impl MemoryRepo {
    /// Stores a new run under the next free id (the number of runs stored
    /// before, deleted ones included) and returns it.
    pub fn run_new(&mut self, run_data: NewRun) -> (r: Result<Run, RepoError>)
        requires
            old(self)@.runs.len() <= i32::MAX,
        ensures
            r == Ok::<Run, RepoError>(run_record(run_data, old(self)@.runs.len() as RunId)),
            final(self)@ == run_new_state(old(self)@, run_data),
            state_wf(final(self)@),
    {
        proof {
            use_type_invariant(&*self);
        }
        let run_id: RunId = self.runs.len() as RunId;
        let run = Run {
            id: run_id,
            toolchain_id: run_data.toolchain_id,
            problem_id: run_data.problem_id,
            rejudge_id: run_data.rejudge_id,
            user_id: run_data.user_id,
            contest_id: run_data.contest_id,
        };
        let mut runs: Vec<Option<Run>> = Vec::new();
        std::mem::swap(&mut runs, &mut self.runs);
        runs.push(Some(run.clone()));
        self.runs = runs;
        Ok(run)
    }

    /// The run with the given id, or `None` where there is none (never
    /// created, deleted, or a negative id).
    pub fn run_try_load(&self, run_id: RunId) -> (r: Result<Option<Run>, RepoError>)
        ensures
            state_wf(self@),
            r == Ok::<Option<Run>, RepoError>(run_slot(self@, run_id as int)),
    {
        proof {
            use_type_invariant(self);
        }
        if run_id < 0 {
            return Ok(None);
        }
        let idx: usize = run_id as usize;
        if idx >= self.runs.len() {
            return Ok(None);
        }
        match &self.runs[idx] {
            Some(run) => Ok(Some(run.clone())),
            None => Ok(None),
        }
    }

    /// The run with the given id; `UnknownRun` where there is none.
    pub fn run_load(&self, run_id: RunId) -> (r: Result<Run, RepoError>)
        ensures
            state_wf(self@),
            r == run_load_result(self@, run_id),
    {
        proof {
            use_type_invariant(self);
        }
        match self.run_try_load(run_id) {
            Ok(Some(run)) => Ok(run),
            Ok(None) => Err(RepoError::UnknownRun),
            Err(e) => Err(e),
        }
    }

    /// Applies `patch` to the run with the given id; `UnknownRun` (and no
    /// change) where there is none.
    pub fn run_update(&mut self, run_id: RunId, patch: RunPatch) -> (r: Result<(), RepoError>)
        ensures
            r == run_update_result(old(self)@, run_id),
            final(self)@ == run_update_state(old(self)@, run_id, patch),
            state_wf(final(self)@),
    {
        proof {
            use_type_invariant(&*self);
        }
        if run_id < 0 || run_id as usize >= self.runs.len() {
            return Err(RepoError::UnknownRun);
        }
        let idx: usize = run_id as usize;
        let mut cur = match &self.runs[idx] {
            Some(x) => x.clone(),
            None => {
                return Err(RepoError::UnknownRun);
            },
        };
        if let Some(new_rejudge_id) = patch.rejudge_id {
            cur.rejudge_id = new_rejudge_id;
        }
        let mut runs: Vec<Option<Run>> = Vec::new();
        std::mem::swap(&mut runs, &mut self.runs);
        runs.set(idx, Some(cur));
        self.runs = runs;
        Ok(())
    }

    /// Deletes the run with the given id: its slot stays, empty, so the id
    /// is never given out again. `UnknownRun` where the id was never given
    /// out, `RunAlreadyDeleted` where the run was deleted before; no change
    /// in either case.
    pub fn run_delete(&mut self, run_id: RunId) -> (r: Result<(), RepoError>)
        ensures
            r == run_delete_result(old(self)@, run_id),
            final(self)@ == run_delete_state(old(self)@, run_id),
            state_wf(final(self)@),
    {
        proof {
            use_type_invariant(&*self);
        }
        if run_id < 0 || run_id as usize >= self.runs.len() {
            return Err(RepoError::UnknownRun);
        }
        let idx: usize = run_id as usize;
        if self.runs[idx].is_some() {
            let mut runs: Vec<Option<Run>> = Vec::new();
            std::mem::swap(&mut runs, &mut self.runs);
            runs.set(idx, None);
            self.runs = runs;
            Ok(())
        } else {
            Err(RepoError::RunAlreadyDeleted)
        }
    }

    /// Selects runs: none for a limit of zero; the run with `with_run_id`
    /// where one is given (none if it does not exist); else the present runs
    /// among the first `limit` ids (all ids without a limit), in id order.
    pub fn run_select(&self, with_run_id: Option<RunId>, limit: Option<u32>) -> (r: Result<Vec<Run>, RepoError>)
        ensures
            state_wf(self@),
            r matches Ok(v) && v@ == selected_runs(self@, with_run_id, limit),
    {
        proof {
            use_type_invariant(self);
        }
        let lim: usize = match limit {
            Some(x) => x as usize,
            None => usize::MAX,
        };
        if lim == 0 {
            return Ok(Vec::new());
        }
        match with_run_id {
            Some(id) => {
                let mut out: Vec<Run> = Vec::new();
                if let Ok(Some(run)) = self.run_try_load(id) {
                    out.push(run);
                }
                assert(out@ =~= selected_runs(self@, with_run_id, limit));
                Ok(out)
            },
            None => {
                let cnt: usize = if lim < self.runs.len() { lim } else { self.runs.len() };
                let mut out: Vec<Run> = Vec::new();
                let mut i: usize = 0;
                while i < cnt
                    invariant
                        cnt <= self.runs.len(),
                        i <= cnt,
                        out@ == live_runs(self.runs@.take(i as int)),
                    decreases cnt - i,
                {
                    assert(self.runs@.take(i + 1).drop_last() =~= self.runs@.take(i as int));
                    match &self.runs[i] {
                        Some(run) => out.push(run.clone()),
                        None => {},
                    }
                    i += 1;
                }
                Ok(out)
            },
        }
    }
}

/// The items whose flag is set, in order.
pub fn select_flagged(items: &Vec<Invocation>, flags: &Vec<bool>) -> (r: Vec<Invocation>)
    requires
        flags.len() == items.len(),
    ensures
        inv_views(r@) == flagged(inv_views(items@), flags@),
{
    let mut out: Vec<Invocation> = Vec::new();
    let mut i: usize = 0;
    let ghost views = inv_views(items@);
    while i < flags.len()
        invariant
            i <= flags.len(),
            flags.len() == items.len(),
            views == inv_views(items@),
            inv_views(out@) == flagged(views.take(i as int), flags@.take(i as int)),
        decreases flags.len() - i,
    {
        assert(views.take(i + 1).drop_last() =~= views.take(i as int));
        assert(flags@.take(i + 1).take(i as int) =~= flags@.take(i as int));
        if flags[i] {
            let item = items[i].clone();
            out.push(item);
            assert(inv_views(out@) =~= flagged(views.take(i as int), flags@.take(i as int)).push(views[i as int]));
        } else {
            assert(inv_views(out@) =~= flagged(views.take(i + 1), flags@.take(i + 1)));
        }
        i += 1;
    }
    assert(views.take(flags.len() as int) =~= views);
    assert(flags@.take(flags.len() as int) =~= flags@);
    out
}

impl MemoryRepo {
    /// Stores a new invocation under the next id (the number of invocations
    /// stored before) and returns it.
    pub fn inv_new(&mut self, inv_data: NewInvocation) -> (r: Result<Invocation, RepoError>)
        requires
            old(self)@.invs.len() <= i32::MAX,
        ensures
            r matches Ok(inv) && inv@ == inv_record(inv_data, old(self)@.invs.len() as InvocationId),
            final(self)@ == inv_new_state(old(self)@, inv_data),
            state_wf(final(self)@),
    {
        proof {
            use_type_invariant(&*self);
        }
        let inv_id: InvocationId = self.invs.len() as InvocationId;
        let inv = Invocation {
            id: inv_id,
            run_id: inv_data.run_id,
            invoke_task: inv_data.invoke_task,
            state: inv_data.state,
            outcome: inv_data.outcome,
        };
        let mut invs: Vec<Invocation> = Vec::new();
        std::mem::swap(&mut invs, &mut self.invs);
        let ghost before = invs@;
        invs.push(inv.clone());
        assert(inv_views(invs@) =~= inv_views(before).push(inv@));
        self.invs = invs;
        Ok(inv)
    }

    /// The invocations that `offset` and `count` select: skip `offset`, then
    /// take at most `count`.
    pub fn inv_window(&self, offset: u32, count: u32) -> (r: Vec<Invocation>)
        ensures
            state_wf(self@),
            inv_views(r@) == window_of(self@.invs, offset, count),
    {
        proof {
            use_type_invariant(self);
        }
        let len: usize = self.invs.len();
        let lo: usize = if (offset as usize) < len { offset as usize } else { len };
        let hi: usize = if (count as usize) < len - lo { lo + count as usize } else { len };
        let mut out: Vec<Invocation> = Vec::new();
        let mut i: usize = lo;
        while i < hi
            invariant
                lo <= i <= hi <= self.invs.len(),
                inv_views(out@) == inv_views(self.invs@).subrange(lo as int, i as int),
            decreases hi - i,
        {
            let ghost prev = out@;
            let item = self.invs[i].clone();
            out.push(item);
            assert(out@ == prev.push(item));
            assert(inv_views(out@) =~= inv_views(prev).push(item@));
            assert(inv_views(self.invs@)[i as int] == self.invs@[i as int]@);
            assert(inv_views(out@) =~= inv_views(self.invs@).subrange(lo as int, i + 1));
            i += 1;
        }
        assert(inv_views(self.invs@).len() == len);
        out
    }

    /// The invocations of the window selected by `offset` and `count` for
    /// which `predicate` answers `true`, in order. The predicate is asked
    /// about each item of the window, once and in order, until it answers
    /// with an error; that first error is returned as it is.
    pub fn inv_find_waiting<E, F: FnMut(Invocation) -> Result<bool, E>>(
        &self,
        offset: u32,
        count: u32,
        predicate: &mut F,
    ) -> (r: Result<Vec<Invocation>, E>)
        requires
            forall|x: Invocation| call_requires(*old(predicate), (x,)),
        ensures
            state_wf(self@),
            *final(predicate) == *old(predicate),
            window_of(self@.invs, offset, count).len() == 0 ==> (r matches Ok(v) && v.len() == 0),
            r matches Ok(v) ==> exists|flags: Seq<bool>, args: Seq<Invocation>|
                flags.len() == window_of(self@.invs, offset, count).len()
                && #[trigger] answered(*old(predicate), window_of(self@.invs, offset, count), args, flags)
                && inv_views(v@) == flagged(window_of(self@.invs, offset, count), flags),
            r matches Err(e) ==> exists|flags: Seq<bool>, args: Seq<Invocation>, last: Invocation|
                flags.len() < window_of(self@.invs, offset, count).len()
                && #[trigger] answered(*old(predicate), window_of(self@.invs, offset, count), args, flags)
                && last@ == window_of(self@.invs, offset, count)[flags.len() as int]
                && #[trigger] call_ensures(*old(predicate), (last,), Err::<bool, E>(e)),
    {
        proof {
            use_type_invariant(self);
        }
        let items = self.inv_window(offset, count);
        let ghost window = window_of(self@.invs, offset, count);
        let mut flags: Vec<bool> = Vec::new();
        let ghost mut args: Seq<Invocation> = Seq::empty();
        let mut i: usize = 0;
        while i < items.len()
            invariant
                i <= items.len(),
                flags.len() == i,
                inv_views(items@) == window,
                window == window_of(self@.invs, offset, count),
                state_wf(self@),
                window.len() == items.len(),
                *predicate == *old(predicate),
                forall|x: Invocation| call_requires(*old(predicate), (x,)),
                answered(*old(predicate), window, args, flags@),
            decreases items.len() - i,
        {
            let arg = items[i].clone();
            let ghost a = arg;
            assert(inv_views(items@)[i as int] == items@[i as int]@);
            match predicate(arg) {
                Ok(b) => {
                    proof {
                        args = args.push(a);
                    }
                    flags.push(b);
                },
                Err(e) => {
                    let ghost err = e;
                    assert(a@ == window[flags@.len() as int]);
                    assert(call_ensures(*old(predicate), (a,), Err::<bool, E>(err)));
                    let res: Result<Vec<Invocation>, E> = Err(e);
                    assert(res matches Err(x) ==> x == err);
                    return res;
                },
            }
            i += 1;
        }
        let out = select_flagged(&items, &flags);
        assert(inv_views(out@).len() == out@.len());
        assert(window.len() == 0 ==> flagged(window, flags@) =~= Seq::<InvocationView>::empty());
        Ok(out)
    }

    /// The last invocation of the run `run_id`; `NoInvocationsForRun` where
    /// the run has none.
    pub fn inv_last(&self, run_id: RunId) -> (r: Result<Invocation, RepoError>)
        ensures
            state_wf(self@),
            match last_inv_of_run(self@.invs, run_id) {
                Some(i) => r matches Ok(inv) && inv@ == self@.invs[i],
                None => r == Err::<Invocation, RepoError>(RepoError::NoInvocationsForRun),
            },
    {
        proof {
            use_type_invariant(self);
        }
        let mut i: usize = self.invs.len();
        assert(self@.invs.take(i as int) =~= self@.invs);
        while i > 0
            invariant
                i <= self.invs.len(),
                state_wf(self@),
                last_inv_of_run(self@.invs, run_id) == last_inv_of_run(self@.invs.take(i as int), run_id),
            decreases i,
        {
            assert(self@.invs.take(i as int).drop_last() =~= self@.invs.take(i - 1));
            assert(self@.invs[i - 1] == self.invs@[i - 1]@);
            if self.invs[i - 1].run_id == run_id {
                return Ok(self.invs[i - 1].clone());
            }
            i -= 1;
        }
        Err(RepoError::NoInvocationsForRun)
    }
}

impl MemoryRepo {
    /// Applies `patch` to the invocation with the given id;
    /// `UnknownInvocation` (and no change) where there is none.
    pub fn inv_update(&mut self, inv_id: InvocationId, patch: InvocationPatch) -> (r: Result<(), RepoError>)
        ensures
            r == inv_update_result(old(self)@, inv_id),
            final(self)@ == inv_update_state(old(self)@, inv_id, patch),
            state_wf(final(self)@),
    {
        proof {
            use_type_invariant(&*self);
        }
        let ghost old_state = self@;
        // The count read as an id, as a cast to `i32` reads it.
        let count: i32 = if self.invs.len() <= i32::MAX as usize {
            self.invs.len() as i32
        } else {
            i32::MIN
        };
        if inv_id >= count || inv_id < 0 {
            return Err(RepoError::UnknownInvocation);
        }
        let idx: usize = inv_id as usize;
        assert(self@.invs[idx as int] == self.invs@[idx as int]@);
        let mut inv = self.invs[idx].clone();
        let InvocationPatch { state: p_state } = patch;
        if let Some(p_state) = p_state {
            inv.state = p_state;
        }
        let mut invs: Vec<Invocation> = Vec::new();
        std::mem::swap(&mut invs, &mut self.invs);
        let ghost before = invs@;
        assert(old_state.invs[idx as int].id == idx as int);
        assert(before[idx as int]@ == old_state.invs[idx as int]);
        assert(inv@.id == idx);
        invs.set(idx, inv);
        assert(inv_views(invs@) =~= inv_views(before).update(idx as int, inv@));
        assert forall|j: int| 0 <= j < invs@.len() implies #[trigger] inv_views(invs@)[j].id == j by {
            if j != idx {
                assert(inv_views(before)[j] == old_state.invs[j]);
            }
        }
        self.invs = invs;
        Ok(())
    }

    /// Appends a header, given as its JSON text, to the outcome array of the
    /// invocation with the given id. `UnknownInvocation` where there is no
    /// such invocation, `OutcomeNotArray` where its outcome is not an array;
    /// no change in either case.
    pub fn inv_add_outcome_header(&mut self, inv_id: InvocationId, header: String) -> (r: Result<(), RepoError>)
        ensures
            r == add_header_result(old(self)@, inv_id),
            final(self)@ == add_header_state(old(self)@, inv_id, header@),
            state_wf(final(self)@),
    {
        proof {
            use_type_invariant(&*self);
        }
        let ghost old_state = self@;
        if inv_id < 0 || inv_id as usize >= self.invs.len() {
            return Err(RepoError::UnknownInvocation);
        }
        let idx: usize = inv_id as usize;
        assert(self@.invs[idx as int] == self.invs@[idx as int]@);
        let mut inv = self.invs[idx].clone();
        let outcome = match inv.outcome {
            Outcome::Headers(mut hs) => {
                let ghost hs0 = hs.deep_view();
                hs.push(header);
                assert(hs.deep_view() =~= hs0.push(header@));
                Outcome::Headers(hs)
            },
            Outcome::Other(_) => {
                return Err(RepoError::OutcomeNotArray);
            },
        };
        inv.outcome = outcome;
        let mut invs: Vec<Invocation> = Vec::new();
        std::mem::swap(&mut invs, &mut self.invs);
        let ghost before = invs@;
        assert(old_state.invs[idx as int].id == idx as int);
        assert(before[idx as int]@ == old_state.invs[idx as int]);
        assert(inv@.id == idx);
        invs.set(idx, inv);
        assert(inv_views(invs@) =~= inv_views(before).update(idx as int, inv@));
        assert forall|j: int| 0 <= j < invs@.len() implies #[trigger] inv_views(invs@)[j].id == j by {
            if j != idx {
                assert(inv_views(before)[j] == old_state.invs[j]);
            }
        }
        self.invs = invs;
        Ok(())
    }

    /// Stores a new user; its id is the UUID whose first field is the number
    /// of users stored before and whose other fields are zero.
    pub fn user_new(&mut self, user_data: NewUser) -> (r: Result<User, RepoError>)
        requires
            old(self)@.users.len() <= u32::MAX,
        ensures
            r matches Ok(u) && u@ == user_record(user_data, old(self)@.users.len() as int),
            final(self)@ == user_new_state(old(self)@, user_data),
            state_wf(final(self)@),
    {
        proof {
            use_type_invariant(&*self);
        }
        let index: u32 = self.users.len() as u32;
        let zeros: [u8; 8] = [0u8, 0u8, 0u8, 0u8, 0u8, 0u8, 0u8, 0u8];
        let user_id: u128 = uuid_from_fields(index, 0, 0, &zeros);
        assert(uuid_of_fields(index as int, 0, 0, zeros@) == uuid_of_first_field(index as int));
        let user = User {
            id: user_id,
            username: user_data.username,
            password_hash: user_data.password_hash,
            groups: user_data.groups,
        };
        let mut users: Vec<User> = Vec::new();
        std::mem::swap(&mut users, &mut self.users);
        let ghost before = users@;
        users.push(user.clone());
        assert(user_views(users@) =~= user_views(before).push(user@));
        self.users = users;
        Ok(user)
    }

    /// The first user whose name is `login`, if any.
    pub fn user_try_load_by_login(&self, login: &str) -> (r: Result<Option<User>, RepoError>)
        ensures
            state_wf(self@),
            r matches Ok(res) && match first_user_named(self@.users, login@) {
                Some(i) => res matches Some(u) && u@ == self@.users[i],
                None => res is None,
            },
    {
        proof {
            use_type_invariant(self);
        }
        let wanted = login.to_owned();
        let mut i: usize = 0;
        while i < self.users.len()
            invariant
                i <= self.users.len(),
                state_wf(self@),
                wanted@ == login@,
                first_user_named(self@.users.take(i as int), login@) is None,
            decreases self.users.len() - i,
        {
            assert(self@.users.take(i + 1).drop_last() =~= self@.users.take(i as int));
            assert(self@.users[i as int] == self.users@[i as int]@);
            if self.users[i].username == wanted {
                proof {
                    lemma_first_user_named_prefix(self@.users, login@, i + 1);
                }
                return Ok(Some(self.users[i].clone()));
            }
            i += 1;
        }
        assert(self@.users.take(i as int) =~= self@.users);
        Ok(None)
    }
}

/// Where a prefix of `users` holds a user named `login`, the first one found
/// in the whole sequence is the first one found in the prefix.
proof fn lemma_first_user_named_prefix(users: Seq<UserView>, login: Seq<char>, n: int)
    requires
        0 <= n <= users.len(),
        first_user_named(users.take(n), login) is Some,
    ensures
        first_user_named(users, login) == first_user_named(users.take(n), login),
    decreases users.len() - n,
{
    if n < users.len() {
        assert(users.take(n + 1).drop_last() =~= users.take(n));
        lemma_first_user_named_prefix(users, login, n + 1);
    } else {
        assert(users.take(n) =~= users);
    }
}

impl MemoryRepo {
    /// A repository holding the two built-in users, "Global/Root" and then
    /// "Global/Guest", with no password and no groups; no runs and no
    /// invocations.
    pub fn new() -> (r: MemoryRepo)
        ensures
            r@.runs.len() == 0,
            r@.invs.len() == 0,
            r@.users.len() == 2,
            r@.users[0].username == "Global/Root"@,
            r@.users[1].username == "Global/Guest"@,
            forall|i: int| 0 <= i < 2 ==> (#[trigger] r@.users[i]).password_hash is None
                && r@.users[i].groups.len() == 0
                && r@.users[i].id == uuid_of_first_field(i),
            state_wf(r@),
    {
        let mut this = MemoryRepo::empty();
        let _root = this.user_new(NewUser {
            username: "Global/Root".to_owned(),
            password_hash: None,
            groups: Vec::new(),
        });
        let _guest = this.user_new(NewUser {
            username: "Global/Guest".to_owned(),
            password_hash: None,
            groups: Vec::new(),
        });
        proof {
            use_type_invariant(&this);
        }
        this
    }
}

impl Default for MemoryRepo {
    /// An empty repository, without the built-in users.
    fn default() -> (r: MemoryRepo)
        ensures
            r@.runs.len() == 0,
            r@.invs.len() == 0,
            r@.users.len() == 0,
    {
        MemoryRepo::empty()
    }
}

impl MemoryRepo {
    /// The number of run ids given out, deleted runs included.
    pub fn run_slots(&self) -> (r: usize)
        ensures
            state_wf(self@),
            r == self@.runs.len(),
    {
        proof {
            use_type_invariant(self);
        }
        self.runs.len()
    }

    /// The number of invocations stored.
    pub fn inv_count(&self) -> (r: usize)
        ensures
            state_wf(self@),
            r == self@.invs.len(),
    {
        proof {
            use_type_invariant(self);
        }
        self.invs.len()
    }

    /// The number of users stored.
    pub fn user_count(&self) -> (r: usize)
        ensures
            state_wf(self@),
            r == self@.users.len(),
    {
        proof {
            use_type_invariant(self);
        }
        self.users.len()
    }
}

} // verus!
