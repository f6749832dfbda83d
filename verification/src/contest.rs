use vstd::prelude::*;

verus! {

/// A problem of a contest as the API shows it.
#[derive(Debug, PartialEq, Eq)]
pub struct Problem {
    /// Problem title as contestants see, e.g. "Find max flow".
    pub title: String,
    /// Problem external id (aka problem code) as contestants see, e.g. 'A' or '3F'.
    pub id: String,
}

/// A contest as the API shows it.
#[derive(Debug, PartialEq, Eq)]
pub struct Contest {
    pub title: String,
    pub id: String,
}

/// A problem of a contest in the configuration: the problem's name and the
/// code under which the contest shows it.
#[derive(Debug, PartialEq, Eq)]
pub struct ContestProblemConfig {
    pub name: String,
    pub code: String,
}

/// A contest in the configuration.
#[derive(Debug, PartialEq, Eq)]
pub struct ContestConfig {
    pub problems: Vec<ContestProblemConfig>,
}

/// A problem in the configuration.
#[derive(Debug, PartialEq, Eq)]
pub struct ProblemConfig {
    pub name: String,
    pub title: String,
}

/// The loaded configuration of contests and problems.
#[derive(Debug, PartialEq, Eq)]
pub struct EntityConfig {
    pub contests: Vec<ContestConfig>,
    pub problems: Vec<ProblemConfig>,
}

/// The position of the first problem named `name`, if there is one.
pub open spec fn first_problem_named(problems: Seq<ProblemConfig>, name: Seq<char>) -> Option<int>
    decreases problems.len(),
{
    if problems.len() == 0 {
        None
    } else {
        match first_problem_named(problems.drop_last(), name) {
            Some(i) => Some(i),
            None => if problems.last().name@ == name {
                Some(problems.len() - 1)
            } else {
                None
            },
        }
    }
}

/// Where a prefix of `problems` holds one named `name`, the first one in the
/// whole sequence is the first one in the prefix.
proof fn lemma_first_problem_prefix(problems: Seq<ProblemConfig>, name: Seq<char>, n: int)
    requires
        0 <= n <= problems.len(),
        first_problem_named(problems.take(n), name) is Some,
    ensures
        first_problem_named(problems, name) == first_problem_named(problems.take(n), name),
    decreases problems.len() - n,
{
    if n < problems.len() {
        assert(problems.take(n + 1).drop_last() =~= problems.take(n));
        lemma_first_problem_prefix(problems, name, n + 1);
    } else {
        assert(problems.take(n) =~= problems);
    }
}

/// Whether every problem of the first contest names a configured problem.
pub open spec fn first_contest_resolvable(cfg: EntityConfig) -> bool {
    &&& cfg.contests.len() > 0
    &&& forall|k: int| 0 <= k < cfg.contests[0].problems.len()
        ==> first_problem_named(cfg.problems@, #[trigger] cfg.contests[0].problems[k].name@) is Some
}

impl EntityConfig {
    /// The first configured problem named `name`, if any.
    pub fn find_problem(&self, name: &str) -> (r: Option<&ProblemConfig>)
        ensures
            match first_problem_named(self.problems@, name@) {
                Some(i) => r == Some(&self.problems@[i]),
                None => r is None,
            },
    {
        let wanted = name.to_owned();
        let mut i: usize = 0;
        while i < self.problems.len()
            invariant
                i <= self.problems.len(),
                wanted@ == name@,
                first_problem_named(self.problems@.take(i as int), name@) is None,
            decreases self.problems.len() - i,
        {
            assert(self.problems@.take(i + 1).drop_last() =~= self.problems@.take(i as int));
            if self.problems[i].name == wanted {
                proof {
                    lemma_first_problem_prefix(self.problems@, name@, i + 1);
                }
                return Some(&self.problems[i]);
            }
            i += 1;
        }
        assert(self.problems@.take(i as int) =~= self.problems@);
        None
    }
}

impl Contest {
    /// E.g. "Berlandian Olympiad in Informatics. Finals. Day 3."
    pub fn title(&self) -> (r: &str)
        ensures
            r@ == self.title@,
    {
        self.title.as_str()
    }

    /// Configured by human, something readable like 'olymp-2019', or 'test-contest'.
    pub fn id(&self) -> (r: &str)
        ensures
            r@ == self.id@,
    {
        self.id.as_str()
    }

    /// The problems of the first configured contest, in order: each with the
    /// title of the first configured problem of its name and with its code.
    pub fn problems(&self, cfg: &EntityConfig) -> (r: Vec<Problem>)
        requires
            first_contest_resolvable(*cfg),
        ensures
            r.len() == cfg.contests[0].problems.len(),
            forall|k: int| 0 <= k < r.len() ==> {
                &&& (#[trigger] r[k]).id@ == cfg.contests[0].problems[k].code@
                &&& r[k].title@ == cfg.problems[first_problem_named(
                    cfg.problems@,
                    cfg.contests[0].problems[k].name@,
                )->0].title@
            },
    {
        let contest_cfg = &cfg.contests[0];
        let mut out: Vec<Problem> = Vec::new();
        let mut k: usize = 0;
        while k < contest_cfg.problems.len()
            invariant
                contest_cfg == &cfg.contests[0],
                first_contest_resolvable(*cfg),
                k <= contest_cfg.problems.len(),
                out.len() == k,
                forall|j: int| 0 <= j < k ==> {
                    &&& (#[trigger] out[j]).id@ == cfg.contests[0].problems[j].code@
                    &&& out[j].title@ == cfg.problems[first_problem_named(
                        cfg.problems@,
                        cfg.contests[0].problems[j].name@,
                    )->0].title@
                },
            decreases contest_cfg.problems.len() - k,
        {
            let p = &contest_cfg.problems[k];
            assert(first_problem_named(cfg.problems@, cfg.contests[0].problems[k as int].name@) is Some);
            let found = cfg.find_problem(p.name.as_str());
            let title = match found {
                Some(prob) => prob.title.clone(),
                None => {
                    assert(false);
                    String::new()
                },
            };
            out.push(Problem { title, id: p.code.clone() });
            k += 1;
        }
        out
    }
}


/// The problem found by a name carries that name, and no earlier problem
/// does; where none is found, no problem carries it.
pub proof fn law_first_problem_named(problems: Seq<ProblemConfig>, name: Seq<char>)
    ensures
        match first_problem_named(problems, name) {
            Some(i) => {
                &&& 0 <= i < problems.len()
                &&& problems[i].name@ == name
                &&& forall|j: int| 0 <= j < i ==> (#[trigger] problems[j]).name@ != name
            },
            None => forall|j: int| 0 <= j < problems.len() ==> (#[trigger] problems[j]).name@ != name,
        },
    decreases problems.len(),
{
    if problems.len() > 0 {
        let prefix = problems.drop_last();
        law_first_problem_named(prefix, name);
        assert forall|j: int| 0 <= j < problems.len() - 1 implies #[trigger] problems[j] == prefix[j] by {}
    }
}

} // verus!
