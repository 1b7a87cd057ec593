//! One run of the node's own steps, up to the next step that somebody else owes.

use crate::laws::{node_steps_run_out, steps_ahead};
use crate::model::StateView;
use crate::resume::{
    after_action, concluded, concluded_answer, due_action, NodeAction, ResumeErrorView,
    ResumeStatus,
};
use crate::text::{decimal, decimal_text};
use vstd::prelude::*;
use vstd::string::*;

verus! {

/// How many steps one run may take.
pub const MAX_ACTIONS_PER_RUN: usize = 8;

/// What a run asks for next.
#[derive(Clone, Copy, Debug, Eq, PartialEq, Structural)]
pub enum RunStep {
    /// Take the node's next step, if it owes one.
    Act,
    /// Save the state that the completed action led to.
    Save { action: NodeAction },
}

/// A run between two of its steps.
#[derive(Debug, Eq, PartialEq)]
pub struct ResumeRun {
    completed_actions: Vec<NodeAction>,
    step: RunStep,
}

/// A run, as mathematics.
pub struct RunView {
    pub completed_actions: Seq<NodeAction>,
    pub step: RunStep,
}

impl View for ResumeRun {
    type V = RunView;

    closed spec fn view(&self) -> RunView {
        RunView { completed_actions: self.completed_actions@, step: self.step }
    }
}

/// What came of a step.
#[derive(Debug, Eq, PartialEq)]
pub enum RunReply<E> {
    Acted { status: ResumeStatus },
    Saved,
    Failed { error: E },
}

/// Why a run failed.
#[derive(Debug, Eq, PartialEq)]
pub enum RunError<E> {
    Step(E),
    LimitExceeded,
}

/// What a run reports: the steps that were completed, and what the next step waits for.
#[derive(Debug, Eq, PartialEq)]
pub struct RunReport {
    pub completed_actions: Vec<NodeAction>,
    pub status: ResumeStatus,
}

/// Where a run stands.
#[derive(Debug, Eq, PartialEq)]
pub enum RunProgress<E> {
    Continue { run: ResumeRun },
    Finished { result: Result<RunReport, RunError<E>> },
}

/// Where a run stands, as mathematics.
pub enum RunProgressView<E> {
    Continue { run: RunView },
    Finished { result: Result<(Seq<NodeAction>, ResumeStatus), RunError<E>> },
}

impl<E> RunProgress<E> {
    /// Where the run stands, as mathematics.
    pub open spec fn model(self) -> RunProgressView<E> {
        match self {
            RunProgress::Continue { run } => RunProgressView::Continue { run: run@ },
            RunProgress::Finished { result: Ok(report) } => RunProgressView::Finished {
                result: Ok((report.completed_actions@, report.status)),
            },
            RunProgress::Finished { result: Err(error) } => RunProgressView::Finished {
                result: Err(error),
            },
        }
    }
}

impl RunView {
    /// A run that has not asked for anything yet.
    pub open spec fn fresh() -> RunView {
        RunView { completed_actions: Seq::empty(), step: RunStep::Act }
    }

    /// A reply that the pending step can have.
    pub open spec fn awaits<E>(self, reply: RunReply<E>) -> bool {
        reply is Failed || match self.step {
            RunStep::Act => reply is Acted,
            RunStep::Save { .. } => reply is Saved,
        }
    }

    /// Where the run stands after a reply: a completed action is saved before the next one is
    /// taken, the first status that completes none ends the run, and too many actions fail it.
    pub open spec fn after<E>(self, reply: RunReply<E>) -> RunProgressView<E> {
        match reply {
            RunReply::Failed { error } => RunProgressView::Finished {
                result: Err(RunError::Step(error)),
            },
            RunReply::Acted { status: ResumeStatus::ActionCompleted { action } } => {
                RunProgressView::Continue { run: RunView { step: RunStep::Save { action }, ..self } }
            },
            RunReply::Acted { status } => RunProgressView::Finished {
                result: Ok((self.completed_actions, status)),
            },
            RunReply::Saved => {
                let completed_actions = self.completed_actions.push(self.step->action);
                if completed_actions.len() >= MAX_ACTIONS_PER_RUN {
                    RunProgressView::Finished { result: Err(RunError::LimitExceeded) }
                } else {
                    RunProgressView::Continue {
                        run: RunView { completed_actions, step: RunStep::Act },
                    }
                }
            },
        }
    }
}

impl ResumeRun {
    /// Begins a run.
    pub fn new() -> (run: ResumeRun)
        ensures
            run@ == RunView::fresh(),
    {
        let run = ResumeRun { completed_actions: Vec::new(), step: RunStep::Act };
        assert(run@.completed_actions =~= Seq::empty());
        run
    }

    /// What the run asks for next.
    pub fn step(&self) -> (step: RunStep)
        ensures
            step == self@.step,
    {
        self.step
    }

    /// Takes what came of the pending step.
    pub fn resume<E>(self, reply: RunReply<E>) -> (progress: RunProgress<E>)
        requires
            self@.awaits(reply),
        ensures
            progress.model() == self@.after(reply),
    {
        let mut completed_actions = self.completed_actions;
        match reply {
            RunReply::Failed { error } => RunProgress::Finished {
                result: Err(RunError::Step(error)),
            },
            RunReply::Acted { status } => match status {
                ResumeStatus::ActionCompleted { action } => RunProgress::Continue {
                    run: ResumeRun { completed_actions, step: RunStep::Save { action } },
                },
                _ => RunProgress::Finished { result: Ok(RunReport { completed_actions, status }) },
            },
            RunReply::Saved => {
                if let RunStep::Save { action } = self.step {
                    completed_actions.push(action);
                }
                if completed_actions.len() >= MAX_ACTIONS_PER_RUN {
                    RunProgress::Finished { result: Err(RunError::LimitExceeded) }
                } else {
                    RunProgress::Continue {
                        run: ResumeRun { completed_actions, step: RunStep::Act },
                    }
                }
            },
        }
    }
}

/// Writes the message with which a run is given up that took too many steps.
pub fn limit_message() -> (message: String)
    ensures
        message@ == "resume exceeded the safety limit of "@ + decimal_text(
            MAX_ACTIONS_PER_RUN as nat,
        ) + " node actions"@,
{
    "resume exceeded the safety limit of ".to_string().concat(
        decimal(MAX_ACTIONS_PER_RUN as u64).as_str(),
    ).concat(" node actions")
}

/// The state after `n` of the node's own steps in a row.
pub open spec fn after_actions(state: StateView, n: nat) -> StateView
    decreases n,
{
    if n == 0 {
        state
    } else {
        after_action(after_actions(state, (n - 1) as nat))
    }
}

/// However far the node gets, it owes at most three steps in a row: the limit of a run is never
/// what ends it.
pub proof fn runs_stay_within_the_limit(state: StateView, n: nat)
    requires
        forall|i: nat| i < n ==> due_action(#[trigger] after_actions(state, i)) is Some,
    ensures
        n + steps_ahead(after_actions(state, n)) == steps_ahead(state),
        n <= 3,
        n < MAX_ACTIONS_PER_RUN,
    decreases n,
{
    node_steps_run_out(state);
    if n > 0 {
        runs_stay_within_the_limit(state, (n - 1) as nat);
        node_steps_run_out(after_actions(state, (n - 1) as nat));
    }
}

/// A run that reports leaves nothing behind that the node owes by itself: it ends with a status
/// other than a completed action only where no step of the node is due.
pub proof fn a_reported_run_owes_nothing<E>(
    run: RunView,
    state: StateView,
    outcome: Result<(), E>,
    status: ResumeStatus,
)
    requires
        concluded_answer(state, outcome) == Ok::<ResumeStatus, ResumeErrorView<E>>(status),
        run.after(RunReply::<E>::Acted { status }) is Finished,
    ensures
        due_action(state) is None,
        run.after(RunReply::<E>::Acted { status }) == (RunProgressView::<E>::Finished {
            result: Ok((run.completed_actions, status)),
        }),
        concluded(state, outcome) == state,
{
}

/// The run after a series of replies, as long as each is one that is awaited and none before the
/// last finishes it.
pub open spec fn after_run_replies<E>(replies: Seq<RunReply<E>>) -> Option<RunProgressView<E>>
    decreases replies.len(),
{
    if replies.len() == 0 {
        Some(RunProgressView::Continue { run: RunView::fresh() })
    } else {
        match after_run_replies(replies.drop_last()) {
            Some(RunProgressView::Continue { run }) => if run.awaits(replies.last()) {
                Some(run.after(replies.last()))
            } else {
                None
            },
            _ => None,
        }
    }
}

/// Every completed action is saved before the next one is taken: actions and saves alternate, and
/// a run that may act again has saved all that it completed.
pub proof fn actions_are_saved_one_by_one<E>(replies: Seq<RunReply<E>>, run: RunView)
    requires
        after_run_replies(replies) == Some(RunProgressView::<E>::Continue { run }),
    ensures
        replies.len() == 2 * run.completed_actions.len() + if run.step is Save {
            1int
        } else {
            0int
        },
        run.completed_actions.len() < MAX_ACTIONS_PER_RUN,
        forall|i: int|
            0 <= i < run.completed_actions.len() ==> {
                &&& #[trigger] replies[2 * i] == (RunReply::<E>::Acted {
                    status: ResumeStatus::ActionCompleted { action: run.completed_actions[i] },
                })
                &&& replies[2 * i + 1] == RunReply::<E>::Saved
            },
        run.step matches RunStep::Save { action } ==> replies.last() == (RunReply::<E>::Acted {
            status: ResumeStatus::ActionCompleted { action },
        }),
    decreases replies.len(),
{
    if replies.len() > 0 {
        let shorter = replies.drop_last();
        let before = after_run_replies(shorter)->Some_0->Continue_run;
        actions_are_saved_one_by_one(shorter, before);
        assert forall|i: int| 0 <= i < run.completed_actions.len() implies {
            &&& #[trigger] replies[2 * i] == (RunReply::<E>::Acted {
                status: ResumeStatus::ActionCompleted { action: run.completed_actions[i] },
            })
            &&& replies[2 * i + 1] == RunReply::<E>::Saved
        } by {
            if i < before.completed_actions.len() {
                assert(shorter[2 * i] == replies[2 * i]);
                assert(shorter[2 * i + 1] == replies[2 * i + 1]);
            }
        }
    }
}

/// The state that a run works on, and the state that a load would give.
pub struct RunSituation {
    pub state: StateView,
    pub saved: StateView,
}

/// The situation after a series of replies: a completed action moves the state on, and a save
/// that succeeds stores it. What a save that failed has stored is left open by the laws below.
pub open spec fn situation<E>(start: StateView, replies: Seq<RunReply<E>>) -> RunSituation
    decreases replies.len(),
{
    if replies.len() == 0 {
        RunSituation { state: start, saved: start }
    } else {
        let earlier = situation(start, replies.drop_last());
        match replies.last() {
            RunReply::Acted { status: ResumeStatus::ActionCompleted { .. } } => RunSituation {
                state: after_action(earlier.state),
                ..earlier
            },
            RunReply::Saved => RunSituation { saved: earlier.state, ..earlier },
            _ => earlier,
        }
    }
}

/// Every status among the replies is what `execute_next_node_action` answers in its situation, for
/// some outcome of the node's operation.
pub open spec fn statuses_are_true<E>(start: StateView, replies: Seq<RunReply<E>>) -> bool
    decreases replies.len(),
{
    replies.len() == 0 || {
        &&& statuses_are_true(start, replies.drop_last())
        &&& replies.last() matches RunReply::Acted { status } ==> exists|outcome: Result<(), E>|
            #[trigger] concluded_answer(situation(start, replies.drop_last()).state, outcome) == Ok::<
                ResumeStatus,
                ResumeErrorView<E>,
            >(status)
    }
}

/// The actions are those that the node owes from `start` on, each in its turn.
pub open spec fn owed_actions(start: StateView, actions: Seq<NodeAction>) -> bool {
    forall|i: int|
        0 <= i < actions.len() ==> due_action(after_actions(start, i as nat)) == Some(
            #[trigger] actions[i],
        )
}

/// A whole run: it completes the actions that the node owes, in their order and three of them at
/// the most, never runs into its limit, and ends with a report only when the node owes nothing
/// more. What it reports is stored. A run that fails in one of the node's operations has stored
/// every action that was completed before.
pub proof fn a_run_stores_what_it_reports<E>(start: StateView, replies: Seq<RunReply<E>>)
    requires
        after_run_replies(replies) is Some,
        statuses_are_true(start, replies),
    ensures
        ({
            let now = situation(start, replies);
            match after_run_replies(replies)->Some_0 {
                RunProgressView::Continue { run } => {
                    let n = run.completed_actions.len();
                    &&& n <= 3
                    &&& owed_actions(start, run.completed_actions)
                    &&& now.saved == after_actions(start, n)
                    &&& match run.step {
                        RunStep::Act => now.state == now.saved,
                        RunStep::Save { action } => {
                            &&& due_action(now.saved) == Some(action)
                            &&& now.state == after_action(now.saved)
                        },
                    }
                },
                RunProgressView::Finished { result: Ok((actions, status)) } => {
                    &&& actions.len() <= 3
                    &&& owed_actions(start, actions)
                    &&& now.state == after_actions(start, actions.len())
                    &&& now.saved == now.state
                    &&& due_action(now.state) is None
                },
                RunProgressView::Finished { result: Err(error) } => {
                    let run = after_run_replies(replies.drop_last())->Some_0->Continue_run;
                    &&& error is Step
                    &&& replies.last() == (RunReply::Failed { error: error->Step_0 })
                    &&& owed_actions(start, run.completed_actions)
                    &&& run.step is Act ==> {
                        &&& now.state == after_actions(start, run.completed_actions.len())
                        &&& now.saved == now.state
                    }
                },
            }
        }),
    decreases replies.len(),
{
    if replies.len() > 0 {
        let shorter = replies.drop_last();
        a_run_stores_what_it_reports(start, shorter);
        let run = after_run_replies(shorter)->Some_0->Continue_run;
        let n = run.completed_actions.len();
        assert(owed_actions(start, run.completed_actions));
        match run.step {
            RunStep::Act => {
                lemma_owed_actions_are_few(start, run.completed_actions);
            },
            RunStep::Save { action } => {
                let completed = run.completed_actions.push(action);
                assert forall|i: int| 0 <= i < completed.len() implies due_action(
                    after_actions(start, i as nat),
                ) == Some(#[trigger] completed[i]) by {
                    if i < n {
                        assert(completed[i] == run.completed_actions[i]);
                    }
                }
                lemma_owed_actions_are_few(start, completed);
                assert(after_actions(start, n + 1) == after_action(after_actions(start, n)));
            },
        }
    }
}

/// The node owes at most three actions in a row.
proof fn lemma_owed_actions_are_few(start: StateView, actions: Seq<NodeAction>)
    requires
        owed_actions(start, actions),
    ensures
        actions.len() <= 3,
        actions.len() < MAX_ACTIONS_PER_RUN,
{
    assert forall|i: nat| i < actions.len() implies due_action(
        #[trigger] after_actions(start, i),
    ) is Some by {
        assert(due_action(after_actions(start, i as nat)) == Some(actions[i as int]));
    }
    runs_stay_within_the_limit(start, actions.len());
}

/// A run ends with the first reply that is not a completed action or its save: a failure ends it
/// with that very failure, any other status is what it reports, and every other reply leads on, as
/// long as the limit is not reached.
pub proof fn runs_end_with_their_last_reply<E>(run: RunView, reply: RunReply<E>)
    requires
        run.awaits(reply),
        run.completed_actions.len() < MAX_ACTIONS_PER_RUN,
    ensures
        match run.after(reply) {
            RunProgressView::Continue { run: next } => {
                &&& !(reply is Failed)
                &&& next.step is Act <==> run.step is Save
                &&& next.completed_actions == match run.step {
                    RunStep::Act => run.completed_actions,
                    RunStep::Save { action } => run.completed_actions.push(action),
                }
                &&& next.step matches RunStep::Save { action } ==> reply == (RunReply::<E>::Acted {
                    status: ResumeStatus::ActionCompleted { action },
                })
            },
            RunProgressView::Finished { result: Ok((actions, status)) } => {
                &&& actions == run.completed_actions
                &&& reply == (RunReply::<E>::Acted { status })
                &&& !(status is ActionCompleted)
            },
            RunProgressView::Finished { result: Err(RunError::Step(error)) } => reply
                == (RunReply::Failed { error }),
            RunProgressView::Finished { result: Err(RunError::LimitExceeded) } => {
                &&& reply is Saved
                &&& run.completed_actions.len() + 1 == MAX_ACTIONS_PER_RUN
            },
        },
{
}

} // verus!
