//! Scheduling of browser-test executions: which test starts next, when to wait for a running
//! test, and which failures the run reports when it ends.
use crate::error::BrowserTestError;
use crate::primitives::NonZeroCount;
use vstd::prelude::*;

verus! {

/// How the runner schedules browser tests.
#[derive(Debug, Clone, Copy, PartialEq, Eq, Structural)]
pub enum BrowserTestParallelism {
    /// Run one test at a time.
    Sequential,
    /// Run up to the given number of tests at the same time; each test still receives a fresh
    /// `WebDriver` session. `1` behaves like `Sequential`.
    Parallel(NonZeroCount),
}

impl BrowserTestParallelism {
    /// The largest number of tests that may run at the same time.
    pub open spec fn max_parallel_spec(self) -> nat {
        match self {
            BrowserTestParallelism::Sequential => 1,
            BrowserTestParallelism::Parallel(c) => c.view_value(),
        }
    }

    /// The largest number of tests that may run at the same time (one for `Sequential`).
    pub fn max_parallel_tests(self) -> (r: NonZeroCount)
        ensures
            r.view_value() == self.max_parallel_spec(),
    {
        match self {
            BrowserTestParallelism::Sequential => NonZeroCount::one(),
            BrowserTestParallelism::Parallel(c) => c,
        }
    }
}

impl Default for BrowserTestParallelism {
    fn default() -> (r: Self)
        ensures
            r == BrowserTestParallelism::Sequential,
    {
        BrowserTestParallelism::Sequential
    }
}

/// Parallelism with a maximum of one schedules exactly as sequential execution does.
pub proof fn lemma_parallel_one_is_sequential(c: NonZeroCount)
    requires
        c.view_value() == 1,
    ensures
        BrowserTestParallelism::Parallel(c).max_parallel_spec()
            == BrowserTestParallelism::Sequential.max_parallel_spec(),
{
}

/// How the runner handles failed browser tests.
#[derive(Debug, Clone, Copy, PartialEq, Eq, Structural)]
pub enum BrowserTestFailurePolicy {
    /// Stop after the first failed test. When tests run in parallel, no further test is started,
    /// and the tests already running are awaited before the failures they report are returned.
    FailFast,
    /// Run every test and return all failures, collected into one report.
    RunAll,
}

impl Default for BrowserTestFailurePolicy {
    fn default() -> (r: Self)
        ensures
            r == BrowserTestFailurePolicy::FailFast,
    {
        BrowserTestFailurePolicy::FailFast
    }
}

/// Where one test stands in a run.
#[derive(Debug, Clone, Copy, PartialEq, Eq, Structural)]
pub enum TestState {
    /// Not started yet.
    Pending,
    /// Started and not finished.
    Running,
    /// Finished successfully.
    Passed,
    /// Finished with a failure or a panic.
    Failed,
}

/// What a finished run reports.
#[derive(Debug, Clone, PartialEq, Eq)]
pub enum RunOutcome {
    /// Every test that ran passed.
    AllPassed,
    /// A sequential fail-fast run stopped at this test; its failure is reported as it is.
    FirstFailure(usize),
    /// These tests failed (in index order); their failures are collected into one report.
    CollectedFailures(Vec<usize>),
}

/// The mathematical form of a [`RunOutcome`].
pub enum RunOutcomeView {
    AllPassed,
    FirstFailure(usize),
    CollectedFailures(Seq<usize>),
}

impl View for RunOutcome {
    type V = RunOutcomeView;

    open spec fn view(&self) -> RunOutcomeView {
        match self {
            RunOutcome::AllPassed => RunOutcomeView::AllPassed,
            RunOutcome::FirstFailure(i) => RunOutcomeView::FirstFailure(*i),
            RunOutcome::CollectedFailures(v) => RunOutcomeView::CollectedFailures(v@),
        }
    }
}

/// The next thing the driver of a run must do.
#[derive(Debug, Clone, PartialEq, Eq)]
pub enum SchedulerAction {
    /// Start the test with this index.
    Start(usize),
    /// Wait until one of the running tests finishes, and report it.
    AwaitCompletion,
    /// The run is over, with this outcome.
    Finish(RunOutcome),
}

/// How many entries of `s` equal `t`.
pub open spec fn count_state(s: Seq<TestState>, t: TestState) -> nat
    decreases s.len(),
{
    if s.len() == 0 {
        0
    } else {
        count_state(s.drop_last(), t) + if s.last() == t {
            1nat
        } else {
            0nat
        }
    }
}

/// The indices below `n` whose test failed, in increasing order.
pub open spec fn failed_prefix(s: Seq<TestState>, n: nat) -> Seq<usize>
    decreases n,
{
    if n == 0 {
        seq![]
    } else if s[n - 1] == TestState::Failed {
        failed_prefix(s, (n - 1) as nat).push((n - 1) as usize)
    } else {
        failed_prefix(s, (n - 1) as nat)
    }
}

/// The indices of the failed tests, in increasing order.
pub open spec fn failed_indices(s: Seq<TestState>) -> Seq<usize> {
    failed_prefix(s, s.len())
}

/// Schedules the executions of a run of browser tests.
///
/// The driver of a run asks [`Self::next_action`] what to do, starts the tests it names, and
/// reports each finished test with [`Self::record_completion`].
pub struct TestScheduler {
    failure_policy: BrowserTestFailurePolicy,
    max_parallel: usize,
    states: Vec<TestState>,
    next_test: usize,
    running: usize,
    failed: usize,
}

impl TestScheduler {
    /// The failure policy of the run.
    pub closed spec fn policy(&self) -> BrowserTestFailurePolicy {
        self.failure_policy
    }

    /// The largest number of tests that run at the same time.
    pub closed spec fn max_parallel(&self) -> nat {
        self.max_parallel as nat
    }

    /// Where each test stands.
    pub closed spec fn states(&self) -> Seq<TestState> {
        self.states@
    }

    /// How many tests have been started (they are started in index order).
    pub closed spec fn started(&self) -> nat {
        self.next_test as nat
    }

    /// How many tests are running.
    pub open spec fn running_count(&self) -> nat {
        count_state(self.states(), TestState::Running)
    }

    /// How many tests have failed.
    pub open spec fn failed_count(&self) -> nat {
        count_state(self.states(), TestState::Failed)
    }

    /// Whether this run works one test at a time (and reports a fail-fast failure unwrapped).
    pub open spec fn is_sequential(&self) -> bool {
        self.max_parallel() == 1
    }

    /// Whether new tests may still be started: always under run-all, and under fail-fast until
    /// a test has failed.
    pub open spec fn keeps_starting(&self) -> bool {
        self.policy() == BrowserTestFailurePolicy::RunAll || self.failed_count() == 0
    }

    /// Whether the next action starts a test.
    pub open spec fn can_start(&self) -> bool {
        &&& self.started() < self.states().len()
        &&& self.running_count() < self.max_parallel()
        &&& self.keeps_starting()
    }

    /// What the run reports once nothing runs and nothing more is started.
    pub open spec fn outcome(&self) -> RunOutcomeView {
        let failed = failed_indices(self.states());
        if failed.len() == 0 {
            RunOutcomeView::AllPassed
        } else if self.is_sequential() && self.policy() == BrowserTestFailurePolicy::FailFast {
            RunOutcomeView::FirstFailure(failed[0])
        } else {
            RunOutcomeView::CollectedFailures(failed)
        }
    }

    /// The scheduler's internal consistency.
    pub closed spec fn wf(&self) -> bool {
        &&& self.max_parallel >= 1
        &&& self.next_test <= self.states.len()
        &&& forall|i: int|
            0 <= i < self.states@.len() ==> (#[trigger] self.states@[i] == TestState::Pending
                <==> i >= self.next_test)
        &&& self.running == count_state(self.states@, TestState::Running)
        &&& self.failed == count_state(self.states@, TestState::Failed)
        &&& self.running <= self.max_parallel
        &&& (self.max_parallel == 1 && self.failure_policy == BrowserTestFailurePolicy::FailFast
            && self.failed > 0) ==> (self.running == 0 && self.failed == 1)
    }

    /// A scheduler for `test_count` tests, none of them started.
    pub fn new(
        parallelism: BrowserTestParallelism,
        failure_policy: BrowserTestFailurePolicy,
        test_count: usize,
    ) -> (r: Self)
        ensures
            r.wf(),
            r.policy() == failure_policy,
            r.max_parallel() == parallelism.max_parallel_spec(),
            r.states() == Seq::new(test_count as nat, |i: int| TestState::Pending),
            r.started() == 0,
            r.running_count() == 0,
            r.failed_count() == 0,
    {
        let max = parallelism.max_parallel_tests().get();
        let mut states: Vec<TestState> = Vec::new();
        let mut k: usize = 0;
        while k < test_count
            invariant
                k <= test_count,
                states@ == Seq::new(k as nat, |i: int| TestState::Pending),
            decreases test_count - k,
        {
            states.push(TestState::Pending);
            k = k + 1;
        }
        proof {
            lemma_count_absent(states@, TestState::Running);
            lemma_count_absent(states@, TestState::Failed);
        }
        TestScheduler { failure_policy, max_parallel: max, states, next_test: 0, running: 0, failed: 0 }
    }

    /// The number of tests in the run.
    pub fn test_count(&self) -> (r: usize)
        ensures
            r == self.states().len(),
    {
        self.states.len()
    }

    /// Whether the test with this index is running.
    pub fn is_running(&self, test_index: usize) -> (r: bool)
        ensures
            r == (test_index < self.states().len() && self.states()[test_index as int]
                == TestState::Running),
    {
        test_index < self.states.len() && self.states[test_index] == TestState::Running
    }

    /// Decides what the driver of the run does next: start the next test while fewer than the
    /// maximum run and starting is still allowed, otherwise wait for a running test, and when
    /// none runs, finish the run with its outcome.
    pub fn next_action(&mut self) -> (action: SchedulerAction)
        requires
            old(self).wf(),
        ensures
            final(self).wf(),
            final(self).policy() == old(self).policy(),
            final(self).max_parallel() == old(self).max_parallel(),
            old(self).can_start() ==> {
                &&& action == SchedulerAction::Start(old(self).started() as usize)
                &&& final(self).states() == old(self).states().update(
                    old(self).started() as int,
                    TestState::Running,
                )
                &&& final(self).started() == old(self).started() + 1
            },
            !old(self).can_start() ==> {
                &&& final(self).states() == old(self).states()
                &&& final(self).started() == old(self).started()
            },
            !old(self).can_start() && old(self).running_count() > 0 ==> action
                == SchedulerAction::AwaitCompletion,
            !old(self).can_start() && old(self).running_count() == 0 ==> (action matches SchedulerAction::Finish(o)
                && o@ == old(self).outcome()),
    {
        let keep_starting = self.failure_policy == BrowserTestFailurePolicy::RunAll || self.failed
            == 0;
        if self.next_test < self.states.len() && self.running < self.max_parallel
            && keep_starting {
            let i = self.next_test;
            proof {
                lemma_count_update(self.states@, i as int, TestState::Running, TestState::Running);
                lemma_count_update(self.states@, i as int, TestState::Running, TestState::Failed);
            }
            self.states.set(i, TestState::Running);
            self.next_test = i + 1;
            self.running = self.running + 1;
            return SchedulerAction::Start(i);
        }
        if self.running > 0 {
            return SchedulerAction::AwaitCompletion;
        }
        let failed = self.failed_test_indices();
        proof {
            lemma_failed_indices_count(self.states@);
        }
        if failed.len() == 0 {
            SchedulerAction::Finish(RunOutcome::AllPassed)
        } else if self.max_parallel == 1 && self.failure_policy
            == BrowserTestFailurePolicy::FailFast {
            SchedulerAction::Finish(RunOutcome::FirstFailure(failed[0]))
        } else {
            SchedulerAction::Finish(RunOutcome::CollectedFailures(failed))
        }
    }

    /// Records that the running test `test_index` finished, successfully or not.
    pub fn record_completion(&mut self, test_index: usize, passed: bool)
        requires
            old(self).wf(),
            test_index < old(self).states().len(),
            old(self).states()[test_index as int] == TestState::Running,
        ensures
            final(self).wf(),
            final(self).policy() == old(self).policy(),
            final(self).max_parallel() == old(self).max_parallel(),
            final(self).started() == old(self).started(),
            final(self).states() == old(self).states().update(
                test_index as int,
                if passed {
                    TestState::Passed
                } else {
                    TestState::Failed
                },
            ),
    {
        let v = if passed {
            TestState::Passed
        } else {
            TestState::Failed
        };
        proof {
            lemma_count_update(self.states@, test_index as int, v, TestState::Running);
            lemma_count_update(self.states@, test_index as int, v, TestState::Failed);
            lemma_count_le_len(self.states@, TestState::Failed);
            lemma_count_le_len(self.states@, TestState::Running);
            lemma_count_le_len(self.states@.update(test_index as int, v), TestState::Failed);
        }
        self.states.set(test_index, v);
        self.running = self.running - 1;
        if !passed {
            self.failed = self.failed + 1;
        }
    }

    /// The indices of the failed tests, in increasing order.
    fn failed_test_indices(&self) -> (r: Vec<usize>)
        requires
            self.wf(),
        ensures
            r@ == failed_indices(self.states()),
    {
        let n = self.states.len();
        let mut out: Vec<usize> = Vec::new();
        let mut i: usize = 0;
        while i < n
            invariant
                i <= n,
                n == self.states@.len(),
                out@ == failed_prefix(self.states@, i as nat),
            decreases n - i,
        {
            if self.states[i] == TestState::Failed {
                out.push(i);
            }
            i = i + 1;
        }
        out
    }

    /// Every started test has finished, or every test has been started, once the scheduler
    /// decides to finish; in particular no test is left running.
    pub proof fn lemma_finish_leaves_nothing_running(&self)
        requires
            self.wf(),
            !self.can_start(),
            self.running_count() == 0,
        ensures
            forall|i: int|
                0 <= i < self.states().len() ==> #[trigger] self.states()[i] != TestState::Running,
            self.keeps_starting() ==> self.started() == self.states().len(),
    {
        lemma_count_zero(self.states@, TestState::Running);
    }

    /// Tests are started in index order, each at most once: exactly the tests below
    /// [`Self::started`] have left the pending state, and a started test never becomes pending
    /// again (the scheduler only moves the next pending test to running, and a running test
    /// to passed or failed).
    pub proof fn lemma_started_in_order(&self)
        requires
            self.wf(),
        ensures
            self.started() <= self.states().len(),
            forall|i: int|
                0 <= i < self.states().len() ==> (#[trigger] self.states()[i] == TestState::Pending
                    <==> i >= self.started()),
    {
    }

    /// No more tests run at the same time than the parallelism allows.
    pub proof fn lemma_running_within_bound(&self)
        requires
            self.wf(),
        ensures
            self.running_count() <= self.max_parallel(),
            self.max_parallel() >= 1,
    {
    }

    /// Under fail-fast, once a test has failed no further test is started.
    pub proof fn lemma_fail_fast_stops_starting(&self)
        requires
            self.wf(),
            self.policy() == BrowserTestFailurePolicy::FailFast,
            self.failed_count() > 0,
        ensures
            !self.can_start(),
    {
    }

    /// A sequential fail-fast run ends right after its first failure: nothing else runs, no
    /// other test failed, and that failure is the outcome.
    pub proof fn lemma_sequential_fail_fast_ends_at_first_failure(&self)
        requires
            self.wf(),
            self.is_sequential(),
            self.policy() == BrowserTestFailurePolicy::FailFast,
            self.failed_count() > 0,
        ensures
            !self.can_start(),
            self.running_count() == 0,
            failed_indices(self.states()).len() == 1,
            self.outcome() == RunOutcomeView::FirstFailure(failed_indices(self.states())[0]),
    {
        lemma_failed_indices_count(self.states@);
    }

    /// The failures a run collects are as many as the tests that failed.
    pub proof fn lemma_outcome_counts_failures(&self)
        requires
            self.wf(),
        ensures
            self.outcome() matches RunOutcomeView::CollectedFailures(l) ==> l.len()
                == self.failed_count(),
            self.outcome() is AllPassed <==> self.failed_count() == 0,
    {
        lemma_failed_indices_count(self.states@);
    }

    /// The outcome of a run names the failed tests and no others: it is "all passed" exactly
    /// when no test failed; a first failure is a failed test and the only one; a collected
    /// report lists, in increasing order and each once, exactly the tests that failed.
    pub proof fn lemma_outcome_names_failed_tests(&self)
        requires
            self.wf(),
        ensures
            self.outcome() is AllPassed <==> (forall|i: int|
                0 <= i < self.states().len() ==> #[trigger] self.states()[i] != TestState::Failed),
            self.outcome() is FirstFailure <==> (self.is_sequential() && self.policy()
                == BrowserTestFailurePolicy::FailFast && !(self.outcome() is AllPassed)),
            self.outcome() matches RunOutcomeView::FirstFailure(f) ==> {
                &&& f < self.states().len()
                &&& self.states()[f as int] == TestState::Failed
                &&& forall|i: int|
                    0 <= i < self.states().len() && #[trigger] self.states()[i] == TestState::Failed
                        ==> i == f
            },
            self.outcome() matches RunOutcomeView::CollectedFailures(l) ==> {
                &&& l == failed_indices(self.states())
                &&& forall|k: int|
                    0 <= k < l.len() ==> #[trigger] l[k] < self.states().len() && self.states()[l[k] as int]
                        == TestState::Failed
                &&& forall|k: int, m: int| 0 <= k < m < l.len() ==> #[trigger] l[k] < #[trigger] l[m]
                &&& forall|i: int|
                    0 <= i < self.states().len() && #[trigger] self.states()[i] == TestState::Failed
                        ==> l.contains(i as usize)
            },
    {
        let s = self.states@;
        assert(s.len() == self.states.len());
        lemma_failed_indices_exact(s);
        lemma_failed_indices_count(s);
        let f = failed_indices(s);
        if f.len() == 0 {
            assert forall|i: int| 0 <= i < s.len() implies #[trigger] s[i] != TestState::Failed by {
                if s[i] == TestState::Failed {
                    assert(f.contains(i as usize));
                }
            }
        } else {
            assert(s[f[0] as int] == TestState::Failed);
            if self.is_sequential() && self.policy() == BrowserTestFailurePolicy::FailFast {
                assert(f.len() == 1);
                assert forall|i: int|
                    0 <= i < s.len() && #[trigger] s[i] == TestState::Failed implies i == f[0] by {
                    assert(f.contains(i as usize));
                }
            }
        }
    }

    /// A run-all run finishes only after every test has run to completion.
    pub proof fn lemma_run_all_finishes_every_test(&self)
        requires
            self.wf(),
            self.policy() == BrowserTestFailurePolicy::RunAll,
            !self.can_start(),
            self.running_count() == 0,
        ensures
            self.started() == self.states().len(),
            forall|i: int|
                0 <= i < self.states().len() ==> (#[trigger] self.states()[i] == TestState::Passed
                    || self.states()[i] == TestState::Failed),
    {
        lemma_count_zero(self.states@, TestState::Running);
        assert forall|i: int| 0 <= i < self.states().len() implies (#[trigger] self.states()[i]
            == TestState::Passed || self.states()[i] == TestState::Failed) by {
            assert(self.states@[i] != TestState::Pending);
            assert(self.states@[i] != TestState::Running);
        }
    }
}

/// The failure list of a run names exactly the failed tests, each once, in increasing index
/// order.
pub proof fn lemma_failed_indices_exact(s: Seq<TestState>)
    requires
        s.len() <= usize::MAX,
    ensures
        forall|k: int|
            0 <= k < failed_indices(s).len() ==> #[trigger] failed_indices(s)[k] < s.len()
                && s[failed_indices(s)[k] as int] == TestState::Failed,
        forall|k: int, l: int|
            0 <= k < l < failed_indices(s).len() ==> #[trigger] failed_indices(s)[k]
                < #[trigger] failed_indices(s)[l],
        forall|i: int|
            0 <= i < s.len() && #[trigger] s[i] == TestState::Failed ==> failed_indices(
                s,
            ).contains(i as usize),
{
    lemma_failed_prefix_exact(s, s.len());
}

proof fn lemma_failed_prefix_exact(s: Seq<TestState>, n: nat)
    requires
        n <= s.len(),
        s.len() <= usize::MAX,
    ensures
        forall|k: int|
            0 <= k < failed_prefix(s, n).len() ==> #[trigger] failed_prefix(s, n)[k] < n
                && s[failed_prefix(s, n)[k] as int] == TestState::Failed,
        forall|k: int, l: int|
            0 <= k < l < failed_prefix(s, n).len() ==> #[trigger] failed_prefix(s, n)[k]
                < #[trigger] failed_prefix(s, n)[l],
        forall|i: int|
            0 <= i < n && #[trigger] s[i] == TestState::Failed ==> failed_prefix(s, n).contains(
                i as usize,
            ),
    decreases n,
{
    if n > 0 {
        let m = (n - 1) as nat;
        lemma_failed_prefix_exact(s, m);
        let p = failed_prefix(s, m);
        if s[m as int] == TestState::Failed {
            let q = p.push(m as usize);
            assert(failed_prefix(s, n) == q);
            assert forall|i: int| 0 <= i < n && #[trigger] s[i] == TestState::Failed implies q.contains(
                i as usize,
            ) by {
                if i < m {
                    let k = choose|k: int| 0 <= k < p.len() && p[k] == i as usize;
                    assert(q[k] == i as usize);
                } else {
                    assert(q[p.len() as int] == i as usize);
                }
            }
        } else {
            assert forall|i: int| 0 <= i < n && #[trigger] s[i] == TestState::Failed implies p.contains(
                i as usize,
            ) by {
                assert(i < m);
            }
        }
    }
}

/// The error that heads a report collecting `failed_tests` failures.
pub fn collected_failures_error(failed_tests: usize) -> (r: BrowserTestError)
    ensures
        r == (BrowserTestError::RunTests { failed_tests }),
{
    BrowserTestError::RunTests { failed_tests }
}

proof fn lemma_count_absent(s: Seq<TestState>, t: TestState)
    requires
        forall|i: int| 0 <= i < s.len() ==> s[i] != t,
    ensures
        count_state(s, t) == 0,
    decreases s.len(),
{
    if s.len() > 0 {
        lemma_count_absent(s.drop_last(), t);
    }
}

proof fn lemma_count_zero(s: Seq<TestState>, t: TestState)
    requires
        count_state(s, t) == 0,
    ensures
        forall|i: int| 0 <= i < s.len() ==> s[i] != t,
    decreases s.len(),
{
    if s.len() > 0 {
        lemma_count_zero(s.drop_last(), t);
        assert forall|i: int| 0 <= i < s.len() implies s[i] != t by {
            if i < s.len() - 1 {
                assert(s.drop_last()[i] == s[i]);
            }
        }
    }
}

proof fn lemma_count_le_len(s: Seq<TestState>, t: TestState)
    ensures
        count_state(s, t) <= s.len(),
    decreases s.len(),
{
    if s.len() > 0 {
        lemma_count_le_len(s.drop_last(), t);
    }
}

proof fn lemma_count_update(s: Seq<TestState>, i: int, v: TestState, t: TestState)
    requires
        0 <= i < s.len(),
    ensures
        count_state(s.update(i, v), t) + (if s[i] == t {
            1nat
        } else {
            0nat
        }) == count_state(s, t) + (if v == t {
            1nat
        } else {
            0nat
        }),
    decreases s.len(),
{
    let u = s.update(i, v);
    if i == s.len() - 1 {
        assert(u.drop_last() == s.drop_last());
    } else {
        lemma_count_update(s.drop_last(), i, v, t);
        assert(u.drop_last() == s.drop_last().update(i, v));
    }
}

proof fn lemma_failed_prefix_count(s: Seq<TestState>, n: nat)
    requires
        n <= s.len(),
    ensures
        failed_prefix(s, n).len() == count_state(s.subrange(0, n as int), TestState::Failed),
    decreases n,
{
    if n > 0 {
        lemma_failed_prefix_count(s, (n - 1) as nat);
        assert(s.subrange(0, n as int).drop_last() == s.subrange(0, n - 1));
    }
}

proof fn lemma_failed_indices_count(s: Seq<TestState>)
    ensures
        failed_indices(s).len() == count_state(s, TestState::Failed),
{
    lemma_failed_prefix_count(s, s.len());
    assert(s.subrange(0, s.len() as int) == s);
}

} // verus!
