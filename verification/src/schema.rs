use vstd::prelude::*;

verus! {

/// Identifier of a run: its position in the repository.
pub type RunId = i32;

/// Identifier of an invocation: its position in the repository.
pub type InvocationId = i32;

/// A user identifier, the 128 bits of a UUID in big-endian order.
pub type UserId = u128;

/// A submission (run) as it is stored.
#[derive(Debug, PartialEq, Eq)]
pub struct Run {
    pub id: RunId,
    pub toolchain_id: String,
    pub problem_id: String,
    pub rejudge_id: i32,
    pub user_id: UserId,
    pub contest_id: String,
}

impl Clone for Run {
    fn clone(&self) -> (r: Run)
        ensures
            r == *self,
    {
        Run {
            id: self.id,
            toolchain_id: self.toolchain_id.clone(),
            problem_id: self.problem_id.clone(),
            rejudge_id: self.rejudge_id,
            user_id: self.user_id,
            contest_id: self.contest_id.clone(),
        }
    }
}

/// The data of a run that is not yet stored.
#[derive(Debug, PartialEq, Eq)]
pub struct NewRun {
    pub toolchain_id: String,
    pub problem_id: String,
    pub rejudge_id: i32,
    pub user_id: UserId,
    pub contest_id: String,
}

/// A change to a stored run: each present field replaces the stored one.
#[derive(Debug, PartialEq, Eq)]
pub struct RunPatch {
    pub rejudge_id: Option<i32>,
}

/// The JSON outcome of an invocation: either a JSON array, whose items are
/// held as their JSON texts, or any other JSON value, held as its text.
#[derive(Debug, PartialEq, Eq)]
pub enum Outcome {
    Headers(Vec<String>),
    Other(String),
}

/// The mathematical value of an [`Outcome`].
pub enum OutcomeView {
    Headers(Seq<Seq<char>>),
    Other(Seq<char>),
}

impl View for Outcome {
    type V = OutcomeView;

    open spec fn view(&self) -> OutcomeView {
        match self {
            Outcome::Headers(hs) => OutcomeView::Headers(hs.deep_view()),
            Outcome::Other(t) => OutcomeView::Other(t@),
        }
    }
}

impl Clone for Outcome {
    fn clone(&self) -> (r: Outcome)
        ensures
            r@ == self@,
    {
        match self {
            Outcome::Headers(hs) => {
                let copy = clone_strings(hs);
                Outcome::Headers(copy)
            },
            Outcome::Other(t) => Outcome::Other(t.clone()),
        }
    }
}

/// Copies a vector of strings, item by item.
pub fn clone_strings(v: &Vec<String>) -> (r: Vec<String>)
    ensures
        r.deep_view() == v.deep_view(),
{
    let mut r: Vec<String> = Vec::new();
    let mut i: usize = 0;
    while i < v.len()
        invariant
            i <= v.len(),
            r.len() == i,
            forall|j: int| 0 <= j < i ==> #[trigger] r@[j]@ == v@[j]@,
        decreases v.len() - i,
    {
        r.push(v[i].clone());
        i += 1;
    }
    assert(r.deep_view() =~= v.deep_view());
    r
}

/// An invocation of the judge on a run.
#[derive(Debug, PartialEq, Eq)]
pub struct Invocation {
    pub id: InvocationId,
    pub run_id: RunId,
    pub invoke_task: Vec<u8>,
    pub state: i16,
    pub outcome: Outcome,
}

/// The mathematical value of an [`Invocation`].
pub struct InvocationView {
    pub id: InvocationId,
    pub run_id: RunId,
    pub invoke_task: Seq<u8>,
    pub state: i16,
    pub outcome: OutcomeView,
}

impl View for Invocation {
    type V = InvocationView;

    open spec fn view(&self) -> InvocationView {
        InvocationView {
            id: self.id,
            run_id: self.run_id,
            invoke_task: self.invoke_task@,
            state: self.state,
            outcome: self.outcome@,
        }
    }
}

impl Clone for Invocation {
    fn clone(&self) -> (r: Invocation)
        ensures
            r@ == self@,
    {
        let task = self.invoke_task.clone();
        assert(task@ =~= self.invoke_task@);
        Invocation {
            id: self.id,
            run_id: self.run_id,
            invoke_task: task,
            state: self.state,
            outcome: self.outcome.clone(),
        }
    }
}

/// The data of an invocation that is not yet stored.
#[derive(Debug, PartialEq, Eq)]
pub struct NewInvocation {
    pub run_id: RunId,
    pub invoke_task: Vec<u8>,
    pub state: i16,
    pub outcome: Outcome,
}

/// A change to a stored invocation: each present field replaces the stored one.
#[derive(Debug, PartialEq, Eq)]
pub struct InvocationPatch {
    pub state: Option<i16>,
}

/// A user account.
#[derive(Debug, PartialEq, Eq)]
pub struct User {
    pub id: UserId,
    pub username: String,
    pub password_hash: Option<String>,
    pub groups: Vec<String>,
}

/// The mathematical value of a [`User`].
pub struct UserView {
    pub id: UserId,
    pub username: Seq<char>,
    pub password_hash: Option<Seq<char>>,
    pub groups: Seq<Seq<char>>,
}

/// The view of an optional string.
pub open spec fn opt_str_view(s: Option<String>) -> Option<Seq<char>> {
    match s {
        Some(t) => Some(t@),
        None => None,
    }
}

impl View for User {
    type V = UserView;

    open spec fn view(&self) -> UserView {
        UserView {
            id: self.id,
            username: self.username@,
            password_hash: opt_str_view(self.password_hash),
            groups: self.groups.deep_view(),
        }
    }
}

impl Clone for User {
    fn clone(&self) -> (r: User)
        ensures
            r@ == self@,
    {
        let hash = match &self.password_hash {
            Some(h) => Some(h.clone()),
            None => None,
        };
        User {
            id: self.id,
            username: self.username.clone(),
            password_hash: hash,
            groups: clone_strings(&self.groups),
        }
    }
}

/// The data of a user that is not yet stored.
#[derive(Debug, PartialEq, Eq)]
pub struct NewUser {
    pub username: String,
    pub password_hash: Option<String>,
    pub groups: Vec<String>,
}

/// Why a repository operation was refused.
#[derive(Debug, PartialEq, Eq, Clone, Copy)]
pub enum RepoError {
    /// No run with this id exists (never created, or deleted).
    UnknownRun,
    /// The run was deleted before.
    RunAlreadyDeleted,
    /// No invocation belongs to the run.
    NoInvocationsForRun,
    /// No invocation with this id exists.
    UnknownInvocation,
    /// The outcome of the invocation is not a JSON array.
    OutcomeNotArray,
}

} // verus!
