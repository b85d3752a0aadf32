//! The risk-gated run of a plan: one confirmation for the whole batch, one more for each
//! high-risk action, and a question whether to go on after each failure. The decisions are made
//! here; whoever drives a run asks the questions, performs the remote operations and hands the
//! answers back.
use vstd::prelude::*;
use crate::action::{actions_view, Action, ActionView};
use crate::dispatch::{plan_request, request_of, ErrorView, RemoteOp, ValidationError};

verus! {

/// Why an action failed.
#[derive(Debug, Clone, PartialEq)]
pub enum Failure {
    /// The action was not valid; nothing was sent.
    Invalid(ValidationError),
    /// The remote operation reported this reason.
    Remote(String),
}

pub enum FailureView {
    Invalid(ErrorView),
    Remote(Seq<char>),
}

impl View for Failure {
    type V = FailureView;

    open spec fn view(&self) -> FailureView {
        match self {
            Failure::Invalid(e) => FailureView::Invalid(e@),
            Failure::Remote(r) => FailureView::Remote(r@),
        }
    }
}

/// What became of one action.
#[derive(Debug, Clone, PartialEq)]
pub enum Outcome {
    Succeeded(String),
    Failed(Failure),
    Skipped,
}

pub enum OutcomeView {
    Succeeded(Seq<char>),
    Failed(FailureView),
    Skipped,
}

impl View for Outcome {
    type V = OutcomeView;

    open spec fn view(&self) -> OutcomeView {
        match self {
            Outcome::Succeeded(m) => OutcomeView::Succeeded(m@),
            Outcome::Failed(f) => OutcomeView::Failed(f@),
            Outcome::Skipped => OutcomeView::Skipped,
        }
    }
}

/// The views of a list of outcomes, in order.
pub open spec fn outcomes_view(xs: Seq<Outcome>) -> Seq<OutcomeView> {
    xs.map_values(|o: Outcome| o@)
}

/// `n` skipped outcomes.
pub open spec fn skipped(n: int) -> Seq<OutcomeView> {
    Seq::new(n as nat, |i: int| OutcomeView::Skipped)
}

/// Where a run stands: which question or operation it waits for, or that it is over.
#[derive(Debug, Clone, Copy, PartialEq, Eq, Structural)]
pub enum Phase {
    ConfirmBatch,
    ConfirmHighRisk(usize),
    Dispatch(usize),
    ConfirmContinue(usize),
    Done,
}

/// What the driver of a run must do next.
#[derive(Debug, Clone, PartialEq)]
pub enum Step {
    /// Show every action and ask once whether to run them.
    ConfirmBatch,
    /// Ask whether to run this high-risk action.
    ConfirmHighRisk(usize),
    /// Perform this operation for this action and report how it went.
    Dispatch(usize, RemoteOp),
    /// This action failed: ask whether to go on with the rest.
    ConfirmContinue(usize),
    /// The run is over.
    Finished,
}

/// One run of a plan.
pub struct Execution {
    actions: Vec<Action>,
    phase: Phase,
    outcomes: Vec<Outcome>,
}

pub struct ExecView {
    pub plan: Seq<ActionView>,
    pub phase: Phase,
    pub outcomes: Seq<OutcomeView>,
}

impl View for Execution {
    type V = ExecView;

    closed spec fn view(&self) -> ExecView {
        ExecView {
            plan: actions_view(self.actions@),
            phase: self.phase,
            outcomes: outcomes_view(self.outcomes@),
        }
    }
}

/// A state with the given parts.
pub open spec fn state(plan: Seq<ActionView>, phase: Phase, outcomes: Seq<OutcomeView>) -> ExecView {
    ExecView { plan, phase, outcomes }
}

/// Whether a state is one that a run can reach.
pub open spec fn well_formed(s: ExecView) -> bool {
    let n = s.plan.len();
    n <= usize::MAX && match s.phase {
        Phase::ConfirmBatch => n > 0 && s.outcomes.len() == 0,
        Phase::ConfirmHighRisk(i) => i < n && s.outcomes.len() == i && s.plan[i as int].risk is High,
        Phase::Dispatch(i) => i < n && s.outcomes.len() == i && request_of(s.plan[i as int]) is Ok,
        Phase::ConfirmContinue(i) => i + 1 < n && s.outcomes.len() == i + 1
            && s.outcomes[i as int] is Failed,
        Phase::Done => s.outcomes.len() == n,
    }
}

/// The state a run starts in.
pub open spec fn start(plan: Seq<ActionView>) -> ExecView {
    if plan.len() == 0 {
        state(plan, Phase::Done, Seq::empty())
    } else {
        state(plan, Phase::ConfirmBatch, Seq::empty())
    }
}

/// After a failure of action `i`: ask whether to go on where actions remain, else stop.
pub open spec fn after_failure(plan: Seq<ActionView>, outcomes: Seq<OutcomeView>, i: int) -> ExecView {
    if i + 1 < plan.len() {
        state(plan, Phase::ConfirmContinue(i as usize), outcomes)
    } else {
        state(plan, Phase::Done, outcomes)
    }
}

/// Action `i` is to run: wait for its operation, or record why it cannot be sent.
pub open spec fn dispatch_at(plan: Seq<ActionView>, outcomes: Seq<OutcomeView>, i: int) -> ExecView {
    match request_of(plan[i]) {
        Ok(_) => state(plan, Phase::Dispatch(i as usize), outcomes),
        Err(e) => after_failure(plan, outcomes.push(OutcomeView::Failed(FailureView::Invalid(e))), i),
    }
}

/// The run reaches action `i`.
pub open spec fn run_from(plan: Seq<ActionView>, outcomes: Seq<OutcomeView>, i: int) -> ExecView {
    if i >= plan.len() {
        state(plan, Phase::Done, outcomes)
    } else if plan[i].risk is High {
        state(plan, Phase::ConfirmHighRisk(i as usize), outcomes)
    } else {
        dispatch_at(plan, outcomes, i)
    }
}

/// The answer to the batch question.
pub open spec fn on_batch(s: ExecView, yes: bool) -> ExecView {
    if yes {
        run_from(s.plan, s.outcomes, 0)
    } else {
        state(s.plan, Phase::Done, skipped(s.plan.len() as int))
    }
}

/// The answer to the question on high-risk action `i`.
pub open spec fn on_high_risk(s: ExecView, i: int, yes: bool) -> ExecView {
    if yes {
        dispatch_at(s.plan, s.outcomes, i)
    } else {
        run_from(s.plan, s.outcomes.push(OutcomeView::Skipped), i + 1)
    }
}

/// How the operation of action `i` went: its message, or the reason it failed.
pub open spec fn on_result(s: ExecView, i: int, result: Result<Seq<char>, Seq<char>>) -> ExecView {
    match result {
        Ok(m) => run_from(s.plan, s.outcomes.push(OutcomeView::Succeeded(m)), i + 1),
        Err(r) => after_failure(s.plan, s.outcomes.push(OutcomeView::Failed(FailureView::Remote(r))), i),
    }
}

/// The answer to whether to go on after action `i` failed.
pub open spec fn on_continue(s: ExecView, i: int, yes: bool) -> ExecView {
    if yes {
        run_from(s.plan, s.outcomes, i + 1)
    } else {
        state(s.plan, Phase::Done, s.outcomes + skipped(s.plan.len() - (i + 1)))
    }
}

/// The view of a result handed back by the driver.
pub open spec fn result_view(r: Result<String, String>) -> Result<Seq<char>, Seq<char>> {
    match r {
        Ok(m) => Ok(m@),
        Err(e) => Err(e@),
    }
}

/// How many outcomes succeeded.
pub open spec fn count_succeeded(xs: Seq<OutcomeView>) -> nat
    decreases xs.len(),
{
    if xs.len() == 0 {
        0
    } else {
        count_succeeded(xs.drop_last()) + if xs.last() is Succeeded {
            1nat
        } else {
            0nat
        }
    }
}

/// How many outcomes failed.
pub open spec fn count_failed(xs: Seq<OutcomeView>) -> nat
    decreases xs.len(),
{
    if xs.len() == 0 {
        0
    } else {
        count_failed(xs.drop_last()) + if xs.last() is Failed {
            1nat
        } else {
            0nat
        }
    }
}

/// How many outcomes were skipped.
pub open spec fn count_skipped(xs: Seq<OutcomeView>) -> nat
    decreases xs.len(),
{
    if xs.len() == 0 {
        0
    } else {
        count_skipped(xs.drop_last()) + if xs.last() is Skipped {
            1nat
        } else {
            0nat
        }
    }
}

/// How many outcomes came from an operation that was sent: a success, or a failure that the
/// remote side reported. `record_result` is the only step that adds such an outcome.
pub open spec fn count_sent(xs: Seq<OutcomeView>) -> nat
    decreases xs.len(),
{
    if xs.len() == 0 {
        0
    } else {
        count_sent(xs.drop_last()) + match xs.last() {
            OutcomeView::Succeeded(_) => 1nat,
            OutcomeView::Failed(FailureView::Remote(_)) => 1nat,
            _ => 0nat,
        }
    }
}

/// The aggregate result of a run.
#[derive(Debug, Clone, PartialEq)]
pub struct ExecutionReport {
    pub succeeded: usize,
    pub failed: usize,
    pub skipped: usize,
    pub total: usize,
    pub outcomes: Vec<Outcome>,
}

impl Execution {
    /// Whether the run is in a state that a run can reach.
    pub open spec fn wf(&self) -> bool {
        well_formed(self@)
    }

    /// Begins a run of `actions`. A run of no actions is over at once.
    pub fn new(actions: Vec<Action>) -> (r: Execution)
        ensures
            r@ == start(actions_view(actions@)),
            r.wf(),
    {
        let phase = if actions.len() == 0 {
            Phase::Done
        } else {
            Phase::ConfirmBatch
        };
        let r = Execution { actions, phase, outcomes: Vec::new() };
        assert(outcomes_view(r.outcomes@) =~= Seq::<OutcomeView>::empty());
        r
    }

    /// The actions of the run, in order.
    pub fn actions(&self) -> (r: &Vec<Action>)
        ensures
            actions_view(r@) == self@.plan,
    {
        &self.actions
    }

    /// Where the run stands.
    pub fn phase(&self) -> (r: Phase)
        ensures
            r == self@.phase,
    {
        self.phase
    }

    /// What the driver must do next. For an action to dispatch this is the operation it asks for.
    pub fn step(&self) -> (r: Step)
        requires
            self.wf(),
        ensures
            self@.phase == Phase::ConfirmBatch ==> r == Step::ConfirmBatch,
            self@.phase matches Phase::ConfirmHighRisk(i) ==> r == Step::ConfirmHighRisk(i),
            self@.phase matches Phase::Dispatch(i) ==> (r matches Step::Dispatch(j, op) && j == i
                && request_of(self@.plan[i as int]) == Ok::<_, ErrorView>(op@)),
            self@.phase matches Phase::ConfirmContinue(i) ==> r == Step::ConfirmContinue(i),
            self@.phase == Phase::Done ==> r == Step::Finished,
    {
        match self.phase {
            Phase::ConfirmBatch => Step::ConfirmBatch,
            Phase::ConfirmHighRisk(i) => Step::ConfirmHighRisk(i),
            Phase::Dispatch(i) => {
                let r = plan_request(&self.actions[i]);
                match r {
                    Ok(op) => Step::Dispatch(i, op),
                    Err(_) => Step::Finished,
                }
            },
            Phase::ConfirmContinue(i) => Step::ConfirmContinue(i),
            Phase::Done => Step::Finished,
        }
    }

    /// The report of a finished run: the outcome of each action in plan order, and their counts.
    pub fn finish(self) -> (r: ExecutionReport)
        requires
            self.wf(),
            self@.phase == Phase::Done,
        ensures
            outcomes_view(r.outcomes@) == self@.outcomes,
            r.total == self@.plan.len(),
            r.succeeded == count_succeeded(self@.outcomes),
            r.failed == count_failed(self@.outcomes),
            r.skipped == count_skipped(self@.outcomes),
            r.succeeded + r.failed + r.skipped == r.total,
    {
        let ghost all = self@.outcomes;
        let total = self.actions.len();
        let mut succeeded: usize = 0;
        let mut failed: usize = 0;
        let mut skipped: usize = 0;
        let mut i: usize = 0;
        while i < self.outcomes.len()
            invariant
                i <= self.outcomes.len(),
                all == outcomes_view(self.outcomes@),
                succeeded == count_succeeded(all.subrange(0, i as int)),
                failed == count_failed(all.subrange(0, i as int)),
                skipped == count_skipped(all.subrange(0, i as int)),
            decreases self.outcomes.len() - i,
        {
            assert(all.subrange(0, i + 1).drop_last() =~= all.subrange(0, i as int));
            proof {
                lemma_counts_add_up(all.subrange(0, i + 1));
            }
            match &self.outcomes[i] {
                Outcome::Succeeded(_) => succeeded += 1,
                Outcome::Failed(_) => failed += 1,
                Outcome::Skipped => skipped += 1,
            }
            i += 1;
        }
        assert(all.subrange(0, i as int) =~= all);
        proof {
            lemma_counts_add_up(all);
        }
        ExecutionReport { succeeded, failed, skipped, total, outcomes: self.outcomes }
    }

    /// Records an outcome.
    fn record(&mut self, o: Outcome)
        ensures
            final(self).actions@ == old(self).actions@,
            final(self).phase == old(self).phase,
            outcomes_view(final(self).outcomes@) == outcomes_view(old(self).outcomes@).push(o@),
    {
        let ghost prev = self.outcomes@;
        self.outcomes.push(o);
        assert(outcomes_view(self.outcomes@) =~= outcomes_view(prev).push(o@));
    }

    /// After a failure of action `i`.
    fn fail_at(&mut self, i: usize)
        requires
            i < old(self).actions.len(),
        ensures
            final(self)@ == after_failure(old(self)@.plan, old(self)@.outcomes, i as int),
    {
        if i + 1 < self.actions.len() {
            self.phase = Phase::ConfirmContinue(i);
        } else {
            self.phase = Phase::Done;
        }
    }

    /// Action `i` is to run.
    fn dispatch_at(&mut self, i: usize)
        requires
            i < old(self).actions.len(),
        ensures
            final(self)@ == dispatch_at(old(self)@.plan, old(self)@.outcomes, i as int),
    {
        match plan_request(&self.actions[i]) {
            Ok(_) => {
                self.phase = Phase::Dispatch(i);
            },
            Err(e) => {
                self.record(Outcome::Failed(Failure::Invalid(e)));
                self.fail_at(i);
            },
        }
    }

    /// The run reaches action `i`.
    fn run_from(&mut self, i: usize)
        requires
            i <= old(self).actions.len(),
        ensures
            final(self)@ == run_from(old(self)@.plan, old(self)@.outcomes, i as int),
    {
        if i >= self.actions.len() {
            self.phase = Phase::Done;
        } else if self.actions[i].risk.is_high() {
            self.phase = Phase::ConfirmHighRisk(i);
        } else {
            self.dispatch_at(i);
        }
    }

    /// Records `count` skipped outcomes and ends the run.
    fn skip_rest(&mut self, count: usize)
        ensures
            final(self)@ == state(old(self)@.plan, Phase::Done, old(self)@.outcomes + skipped(count as int)),
    {
        let mut k: usize = 0;
        while k < count
            invariant
                k <= count,
                self.actions@ == old(self).actions@,
                outcomes_view(self.outcomes@) == outcomes_view(old(self).outcomes@) + skipped(k as int),
            decreases count - k,
        {
            self.record(Outcome::Skipped);
            k += 1;
            assert(outcomes_view(old(self).outcomes@) + skipped(k as int) =~= (outcomes_view(
                old(self).outcomes@,
            ) + skipped(k - 1)).push(OutcomeView::Skipped));
        }
        self.phase = Phase::Done;
    }

    /// The answer to the batch question. Declined, every action is skipped and nothing is sent.
    pub fn answer_batch(&mut self, yes: bool)
        requires
            old(self).wf(),
            old(self)@.phase == Phase::ConfirmBatch,
        ensures
            final(self)@ == on_batch(old(self)@, yes),
            final(self).wf(),
    {
        if yes {
            self.run_from(0);
        } else {
            let n = self.actions.len();
            self.skip_rest(n);
            assert(Seq::<OutcomeView>::empty() + skipped(n as int) =~= skipped(n as int));
        }
        proof {
            lemma_batch_wf(old(self)@, yes);
        }
    }

    /// The answer to the question on the high-risk action under way. Declined, it is skipped and
    /// the run moves on to the next action.
    pub fn answer_high_risk(&mut self, yes: bool)
        requires
            old(self).wf(),
            old(self)@.phase is ConfirmHighRisk,
        ensures
            final(self)@ == on_high_risk(old(self)@, old(self)@.phase->ConfirmHighRisk_0 as int, yes),
            final(self).wf(),
    {
        let i = match self.phase {
            Phase::ConfirmHighRisk(i) => i,
            _ => 0,
        };
        assert(i < self.actions.len());
        if yes {
            self.dispatch_at(i);
        } else {
            self.record(Outcome::Skipped);
            self.run_from(i + 1);
        }
        proof {
            lemma_high_risk_wf(old(self)@, i, yes);
        }
    }

    /// How the operation under way went: its message, or the reason it failed.
    pub fn record_result(&mut self, result: Result<String, String>)
        requires
            old(self).wf(),
            old(self)@.phase is Dispatch,
        ensures
            final(self)@ == on_result(old(self)@, old(self)@.phase->Dispatch_0 as int, result_view(result)),
            final(self).wf(),
    {
        let i = match self.phase {
            Phase::Dispatch(i) => i,
            _ => 0,
        };
        assert(i < self.actions.len());
        proof {
            lemma_result_wf(self@, i, result_view(result));
        }
        match result {
            Ok(m) => {
                self.record(Outcome::Succeeded(m));
                self.run_from(i + 1);
            },
            Err(r) => {
                self.record(Outcome::Failed(Failure::Remote(r)));
                self.fail_at(i);
            },
        }
    }

    /// The answer to whether to go on after the failed action. Declined, every action after it
    /// is skipped and the run ends.
    pub fn answer_continue(&mut self, yes: bool)
        requires
            old(self).wf(),
            old(self)@.phase is ConfirmContinue,
        ensures
            final(self)@ == on_continue(old(self)@, old(self)@.phase->ConfirmContinue_0 as int, yes),
            final(self).wf(),
    {
        let i = match self.phase {
            Phase::ConfirmContinue(i) => i,
            _ => 0,
        };
        assert(i + 1 < self.actions.len());
        if yes {
            self.run_from(i + 1);
        } else {
            let rest = self.actions.len() - (i + 1);
            self.skip_rest(rest);
        }
        proof {
            lemma_continue_wf(old(self)@, i, yes);
        }
    }
}

/// Every outcome is counted once: as succeeded, failed or skipped.
pub proof fn lemma_counts_add_up(xs: Seq<OutcomeView>)
    ensures
        count_succeeded(xs) + count_failed(xs) + count_skipped(xs) == xs.len(),
        count_succeeded(xs) <= xs.len(),
        count_failed(xs) <= xs.len(),
        count_skipped(xs) <= xs.len(),
    decreases xs.len(),
{
    if xs.len() > 0 {
        lemma_counts_add_up(xs.drop_last());
    }
}

/// A run of skipped outcomes holds no success and no failure.
pub proof fn lemma_skipped_counts(n: int)
    requires
        n >= 0,
    ensures
        count_succeeded(skipped(n)) == 0,
        count_failed(skipped(n)) == 0,
        count_skipped(skipped(n)) == n,
        count_sent(skipped(n)) == 0,
    decreases n,
{
    if n > 0 {
        assert(skipped(n).drop_last() =~= skipped(n - 1));
        lemma_skipped_counts(n - 1);
    }
}

/// Declining the batch question ends the run before any operation is sent: the run is over,
/// no outcome comes from a sent operation, every action is skipped, and none succeeded.
pub proof fn lemma_declined_batch(s: ExecView)
    requires
        well_formed(s),
        s.phase == Phase::ConfirmBatch,
    ensures
        on_batch(s, false).phase == Phase::Done,
        on_batch(s, false).outcomes.len() == s.plan.len(),
        forall|i: int| 0 <= i < s.plan.len() ==> #[trigger] on_batch(s, false).outcomes[i] is Skipped,
        count_succeeded(on_batch(s, false).outcomes) == 0,
        count_failed(on_batch(s, false).outcomes) == 0,
        count_sent(on_batch(s, false).outcomes) == 0,
        count_skipped(on_batch(s, false).outcomes) == s.plan.len(),
{
    lemma_skipped_counts(s.plan.len() as int);
}

/// When action `k` fails and the run is not to go on, the outcomes are those before `k`, the
/// failure of `k`, and a skip for each later action: one for each action of the plan.
pub proof fn lemma_declined_continue(s: ExecView, k: usize)
    requires
        well_formed(s),
        s.phase == Phase::ConfirmContinue(k),
    ensures
        on_continue(s, k as int, false).phase == Phase::Done,
        on_continue(s, k as int, false).outcomes.len() == s.plan.len(),
        on_continue(s, k as int, false).outcomes.subrange(0, k + 1) == s.outcomes,
        on_continue(s, k as int, false).outcomes[k as int] is Failed,
        forall|j: int|
            k < j < s.plan.len() ==> #[trigger] on_continue(s, k as int, false).outcomes[j] is Skipped,
{
    let t = on_continue(s, k as int, false);
    assert(t.outcomes.subrange(0, k + 1) =~= s.outcomes);
}

/// A remote failure of action `k` with actions after it asks whether to go on; declined, the
/// outcomes are those before `k`, the failure of `k`, and a skip for each later action.
pub proof fn lemma_failure_then_abort(s: ExecView, k: usize, reason: Seq<char>)
    requires
        well_formed(s),
        s.phase == Phase::Dispatch(k),
        k + 1 < s.plan.len(),
    ensures
        on_result(s, k as int, Err(reason)).phase == Phase::ConfirmContinue(k),
        on_continue(on_result(s, k as int, Err(reason)), k as int, false).phase == Phase::Done,
        on_continue(on_result(s, k as int, Err(reason)), k as int, false).outcomes == s.outcomes.push(
            OutcomeView::Failed(FailureView::Remote(reason)),
        ) + skipped(s.plan.len() - 1 - k),
        on_continue(on_result(s, k as int, Err(reason)), k as int, false).outcomes.len() == s.plan.len(),
{
    lemma_result_wf(s, k, Err(reason));
    lemma_declined_continue(on_result(s, k as int, Err(reason)), k);
}

/// Declining a high-risk action skips it and moves on to the next action, with no question
/// whether to go on.
pub proof fn lemma_declined_high_risk(s: ExecView, i: usize)
    requires
        well_formed(s),
        s.phase == Phase::ConfirmHighRisk(i),
    ensures
        on_high_risk(s, i as int, false) == run_from(s.plan, s.outcomes.push(OutcomeView::Skipped), i + 1),
        on_high_risk(s, i as int, false).outcomes.subrange(0, i as int) == s.outcomes,
        on_high_risk(s, i as int, false).outcomes[i as int] is Skipped,
        on_high_risk(s, i as int, false).phase != Phase::ConfirmContinue(i),
{
    let t = on_high_risk(s, i as int, false);
    let o = s.outcomes.push(OutcomeView::Skipped);
    if i + 1 < s.plan.len() && !(s.plan[i + 1].risk is High) {
        match request_of(s.plan[i + 1]) {
            Ok(_) => {},
            Err(e) => {
                assert(o.push(OutcomeView::Failed(FailureView::Invalid(e))).subrange(0, i as int) =~= s.outcomes);
                assert(o.push(OutcomeView::Failed(FailureView::Invalid(e)))[i as int] == OutcomeView::Skipped);
            },
        }
    }
    assert(o.subrange(0, i as int) =~= s.outcomes);
}

/// Appending skips adds no sent outcome.
proof fn lemma_sent_with_skips(xs: Seq<OutcomeView>, k: int)
    requires
        k >= 0,
    ensures
        count_sent(xs + skipped(k)) == count_sent(xs),
    decreases k,
{
    if k > 0 {
        assert((xs + skipped(k)).drop_last() =~= xs + skipped(k - 1));
        lemma_sent_with_skips(xs, k - 1);
    } else {
        assert(xs + skipped(k) =~= xs);
    }
}

/// Pushing an outcome counts it as sent exactly when it is a success or a remote failure.
proof fn lemma_sent_push(xs: Seq<OutcomeView>, o: OutcomeView)
    ensures
        count_sent(xs.push(o)) == count_sent(xs) + match o {
            OutcomeView::Succeeded(_) => 1nat,
            OutcomeView::Failed(FailureView::Remote(_)) => 1nat,
            _ => 0nat,
        },
{
    assert(xs.push(o).drop_last() =~= xs);
}

/// Reaching an action sends nothing by itself.
proof fn lemma_run_from_sends_nothing(plan: Seq<ActionView>, outcomes: Seq<OutcomeView>, i: int)
    requires
        0 <= i,
    ensures
        count_sent(run_from(plan, outcomes, i).outcomes) == count_sent(outcomes),
        i < plan.len() ==> count_sent(dispatch_at(plan, outcomes, i).outcomes) == count_sent(outcomes),
{
    if i < plan.len() {
        match request_of(plan[i]) {
            Ok(_) => {},
            Err(e) => lemma_sent_push(outcomes, OutcomeView::Failed(FailureView::Invalid(e))),
        }
    }
}

/// Only the result of an operation adds an outcome of a sent operation, and it adds exactly one:
/// the sent outcomes of a run count the remote operations it performed.
pub proof fn lemma_sent_counts_operations(s: ExecView)
    requires
        well_formed(s),
    ensures
        s.phase == Phase::ConfirmBatch ==> count_sent(on_batch(s, true).outcomes) == 0 && count_sent(on_batch(s, false).outcomes) == 0,
        s.phase matches Phase::ConfirmHighRisk(i) ==> forall|yes: bool| count_sent(#[trigger] on_high_risk(s, i as int, yes).outcomes) == count_sent(s.outcomes),
        s.phase matches Phase::Dispatch(i) ==> forall|r: Result<Seq<char>, Seq<char>>| count_sent(#[trigger] on_result(s, i as int, r).outcomes) == count_sent(s.outcomes) + 1,
        s.phase matches Phase::ConfirmContinue(i) ==> forall|yes: bool| count_sent(#[trigger] on_continue(s, i as int, yes).outcomes) == count_sent(s.outcomes),
{
    match s.phase {
        Phase::ConfirmBatch => {
            assert(s.outcomes =~= Seq::<OutcomeView>::empty());
            lemma_run_from_sends_nothing(s.plan, s.outcomes, 0);
            lemma_skipped_counts(s.plan.len() as int);
        },
        Phase::ConfirmHighRisk(i) => {
            assert forall|yes: bool| count_sent(#[trigger] on_high_risk(s, i as int, yes).outcomes) == count_sent(s.outcomes) by {
                lemma_run_from_sends_nothing(s.plan, s.outcomes, i as int);
                lemma_sent_push(s.outcomes, OutcomeView::Skipped);
                lemma_run_from_sends_nothing(s.plan, s.outcomes.push(OutcomeView::Skipped), i + 1);
            }
        },
        Phase::Dispatch(i) => {
            assert forall|r: Result<Seq<char>, Seq<char>>| count_sent(#[trigger] on_result(s, i as int, r).outcomes) == count_sent(s.outcomes) + 1 by {
                match r {
                    Ok(m) => {
                        lemma_sent_push(s.outcomes, OutcomeView::Succeeded(m));
                        lemma_run_from_sends_nothing(s.plan, s.outcomes.push(OutcomeView::Succeeded(m)), i + 1);
                    },
                    Err(e) => lemma_sent_push(s.outcomes, OutcomeView::Failed(FailureView::Remote(e))),
                }
            }
        },
        Phase::ConfirmContinue(i) => {
            assert forall|yes: bool| count_sent(#[trigger] on_continue(s, i as int, yes).outcomes) == count_sent(s.outcomes) by {
                lemma_run_from_sends_nothing(s.plan, s.outcomes, i + 1);
                lemma_sent_with_skips(s.outcomes, s.plan.len() - (i + 1));
            }
        },
        Phase::Done => {},
    }
}

/// Reaching action `i` with one outcome for each earlier action gives a well-formed state.
proof fn lemma_run_from_wf(plan: Seq<ActionView>, outcomes: Seq<OutcomeView>, i: int)
    requires
        plan.len() <= usize::MAX,
        0 <= i <= plan.len(),
        outcomes.len() == i,
    ensures
        well_formed(run_from(plan, outcomes, i)),
        well_formed(dispatch_at(plan, outcomes, i)) || i >= plan.len(),
{
    if i < plan.len() {
        match request_of(plan[i]) {
            Ok(_) => {},
            Err(e) => {
                let o = outcomes.push(OutcomeView::Failed(FailureView::Invalid(e)));
                assert(o.len() == i + 1);
                assert(o[i] is Failed);
            },
        }
    }
}

/// The answer to the batch question leads to a well-formed state.
proof fn lemma_batch_wf(s: ExecView, yes: bool)
    requires
        well_formed(s),
        s.phase == Phase::ConfirmBatch,
    ensures
        well_formed(on_batch(s, yes)),
{
    lemma_run_from_wf(s.plan, s.outcomes, 0);
}

/// The answer on a high-risk action leads to a well-formed state.
proof fn lemma_high_risk_wf(s: ExecView, i: usize, yes: bool)
    requires
        well_formed(s),
        s.phase == Phase::ConfirmHighRisk(i),
    ensures
        well_formed(on_high_risk(s, i as int, yes)),
{
    lemma_run_from_wf(s.plan, s.outcomes, i as int);
    lemma_run_from_wf(s.plan, s.outcomes.push(OutcomeView::Skipped), i + 1);
}

/// The result of an operation leads to a well-formed state.
proof fn lemma_result_wf(s: ExecView, i: usize, r: Result<Seq<char>, Seq<char>>)
    requires
        well_formed(s),
        s.phase == Phase::Dispatch(i),
    ensures
        well_formed(on_result(s, i as int, r)),
{
    match r {
        Ok(m) => lemma_run_from_wf(s.plan, s.outcomes.push(OutcomeView::Succeeded(m)), i + 1),
        Err(e) => {
            let o = s.outcomes.push(OutcomeView::Failed(FailureView::Remote(e)));
            assert(o[i as int] is Failed);
        },
    }
}

/// The answer after a failure leads to a well-formed state.
proof fn lemma_continue_wf(s: ExecView, i: usize, yes: bool)
    requires
        well_formed(s),
        s.phase == Phase::ConfirmContinue(i),
    ensures
        well_formed(on_continue(s, i as int, yes)),
{
    lemma_run_from_wf(s.plan, s.outcomes, i + 1);
}

} // verus!
