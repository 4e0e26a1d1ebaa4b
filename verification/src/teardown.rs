//! Tearing down an agent of the domino scenario: what it has come to is reported, then its app is
//! uninstalled.

use crate::context::AgentContext;
use crate::keys::AgentPubKey;
use crate::progress::Progress;
use crate::report::{
    actionable_text, final_actionable_transactions, final_history, final_ledger_state, history_text,
    ledger_state_text, ActionableCounts, CompletedCounts, FinalCounts, Metric, MetricText,
};
use vstd::prelude::*;

verus! {

/// What tearing down asks for.
#[derive(Debug, PartialEq, Eq)]
pub enum TeardownRequest {
    /// Read the agent's ledger.
    GetLedger,
    /// Read the transactions that the agent can still act on.
    GetActionable,
    /// Read the transactions that the agent has completed.
    GetCompleted,
    /// Read the spends that are parked.
    GetParked,
    /// Read the agreements that the agent has executed.
    GetExecuted,
    /// Report a metric.
    Report(Metric),
    /// Uninstall the app that the agent remembers.
    Uninstall,
}

/// What comes back. `E` is what a failed request came back with.
#[derive(Debug, PartialEq, Eq)]
pub enum TeardownReply<E> {
    LedgerRead(Result<String, E>),
    ActionableRead(Result<ActionableCounts, E>),
    CompletedRead(Result<CompletedCounts, E>),
    /// How many spends are parked.
    ParkedRead(Result<usize, E>),
    /// How many agreements the agent has executed.
    ExecutedRead(Result<usize, E>),
    Reported,
    Uninstalled(Result<(), E>),
}

/// What could not be read.
#[derive(Debug, PartialEq, Eq)]
pub enum TeardownError<E> {
    Ledger(E),
    Actionable(E),
    Completed(E),
    Parked(E),
    Executed(E),
}

/// How far tearing down has come.
#[derive(Debug, Clone, Copy, PartialEq, Eq)]
pub enum TeardownStep {
    GettingLedger,
    ReportingLedger,
    GettingActionable,
    GettingCompleted { actionable: ActionableCounts },
    GettingParked { actionable: ActionableCounts, completed: CompletedCounts },
    GettingExecuted {
        actionable: ActionableCounts,
        completed: CompletedCounts,
        parked_spends: usize,
    },
    ReportingActionable { counts: FinalCounts },
    ReportingHistory,
    Uninstalling,
    Finished,
}

/// An agent that is being torn down.
#[derive(Debug, Clone, Copy, PartialEq, Eq)]
pub struct TeardownFlow {
    pub agent: AgentPubKey,
    pub step: TeardownStep,
}

/// What a teardown flow answers.
pub type TeardownProgress<E> = Progress<TeardownRequest, (), TeardownError<E>>;

/// What to do next.
pub enum TeardownNext<E> {
    /// Nothing: the reply is not the one that was waited for.
    Ignore,
    /// Go on to a step with a request that reports nothing.
    Ask(TeardownStep, TeardownRequest),
    /// Go on to a step and report a metric.
    Report(TeardownStep, MetricText),
    /// End.
    Finish(Result<(), TeardownError<E>>),
}

impl TeardownFlow {
    /// What follows a reply.
    pub open spec fn next<E>(self, reply: TeardownReply<E>) -> TeardownNext<E> {
        match (self.step, reply) {
            (TeardownStep::GettingLedger, TeardownReply::LedgerRead(read)) => match read {
                Ok(ledger) => TeardownNext::Report(
                    TeardownStep::ReportingLedger,
                    ledger_state_text(self.agent@, ledger@),
                ),
                Err(error) => TeardownNext::Finish(Err(TeardownError::Ledger(error))),
            },
            (TeardownStep::ReportingLedger, TeardownReply::Reported) => TeardownNext::Ask(
                TeardownStep::GettingActionable,
                TeardownRequest::GetActionable,
            ),
            (TeardownStep::GettingActionable, TeardownReply::ActionableRead(read)) => match read {
                Ok(actionable) => TeardownNext::Ask(
                    TeardownStep::GettingCompleted { actionable },
                    TeardownRequest::GetCompleted,
                ),
                Err(error) => TeardownNext::Finish(Err(TeardownError::Actionable(error))),
            },
            (
                TeardownStep::GettingCompleted { actionable },
                TeardownReply::CompletedRead(read),
            ) => match read {
                Ok(completed) => TeardownNext::Ask(
                    TeardownStep::GettingParked { actionable, completed },
                    TeardownRequest::GetParked,
                ),
                Err(error) => TeardownNext::Finish(Err(TeardownError::Completed(error))),
            },
            (
                TeardownStep::GettingParked { actionable, completed },
                TeardownReply::ParkedRead(read),
            ) => match read {
                Ok(parked_spends) => TeardownNext::Ask(
                    TeardownStep::GettingExecuted { actionable, completed, parked_spends },
                    TeardownRequest::GetExecuted,
                ),
                Err(error) => TeardownNext::Finish(Err(TeardownError::Parked(error))),
            },
            (
                TeardownStep::GettingExecuted { actionable, completed, parked_spends },
                TeardownReply::ExecutedRead(read),
            ) => match read {
                Ok(executed_agreements) => TeardownNext::Report(
                    TeardownStep::ReportingActionable {
                        counts: FinalCounts {
                            actionable,
                            completed,
                            parked_spends,
                            executed_agreements,
                        },
                    },
                    actionable_text(self.agent@, actionable),
                ),
                Err(error) => TeardownNext::Finish(Err(TeardownError::Executed(error))),
            },
            (TeardownStep::ReportingActionable { counts }, TeardownReply::Reported) =>
                TeardownNext::Report(
                    TeardownStep::ReportingHistory,
                    history_text(self.agent@, counts),
                ),
            (TeardownStep::ReportingHistory, TeardownReply::Reported) => TeardownNext::Ask(
                TeardownStep::Uninstalling,
                TeardownRequest::Uninstall,
            ),
            (TeardownStep::Uninstalling, TeardownReply::Uninstalled(_)) => TeardownNext::Finish(
                Ok(()),
            ),
            _ => TeardownNext::Ignore,
        }
    }

    /// Whether a reply takes this flow to `flow` with the answer `progress`.
    pub open spec fn steps_to<E>(
        self,
        reply: TeardownReply<E>,
        flow: TeardownFlow,
        progress: Option<TeardownProgress<E>>,
    ) -> bool {
        &&& flow.agent == self.agent
        &&& match self.next(reply) {
            TeardownNext::Ignore => flow.step == self.step && progress is None,
            TeardownNext::Ask(step, request) => flow.step == step && progress == Some(
                Progress::<_, (), TeardownError<E>>::Ask(request),
            ),
            TeardownNext::Report(step, text) => {
                &&& flow.step == step
                &&& progress matches Some(Progress::Ask(TeardownRequest::Report(metric)))
                &&& metric@ == text
            },
            TeardownNext::Finish(outcome) => flow.step is Finished && progress == Some(
                Progress::<TeardownRequest, (), TeardownError<E>>::Finish(outcome),
            ),
        }
    }

    /// Begins to tear down an agent, about whose key its metrics are.
    pub fn begin<C>(ctx: &AgentContext<C>) -> (res: (TeardownFlow, TeardownRequest))
        requires
            ctx.cell_id is Some,
        ensures
            res.0 == (TeardownFlow {
                agent: ctx.cell_id->0.agent_pubkey,
                step: TeardownStep::GettingLedger,
            }),
            res.1 == TeardownRequest::GetLedger,
    {
        let cell_id = ctx.cell_id.unwrap();
        (
            TeardownFlow { agent: cell_id.agent_pubkey, step: TeardownStep::GettingLedger },
            TeardownRequest::GetLedger,
        )
    }
}

/// Goes on to a step with a request.
fn ask<E>(step: TeardownStep, request: TeardownRequest) -> (res: (
    TeardownStep,
    Option<TeardownProgress<E>>,
))
    ensures
        res == (step, Some(Progress::<_, (), TeardownError<E>>::Ask(request))),
{
    (step, Some(Progress::Ask(request)))
}

/// Ends for want of something that could not be read.
fn failure<E>(error: TeardownError<E>) -> (res: (TeardownStep, Option<TeardownProgress<E>>))
    ensures
        res == (
            TeardownStep::Finished,
            Some(Progress::<TeardownRequest, (), TeardownError<E>>::Finish(Err(error))),
        ),
{
    (TeardownStep::Finished, Some(Progress::Finish(Err(error))))
}

/// Takes the teardown of an agent one reply further.
///
/// The ledger is reported before anything else is read, and the rest once all of it has been read.
/// The app may be gone by then, so that a failure to uninstall it is no failure to tear down.
pub fn tear_down<E>(flow: TeardownFlow, reply: TeardownReply<E>) -> (res: (
    TeardownFlow,
    Option<TeardownProgress<E>>,
))
    ensures
        flow.steps_to(reply, res.0, res.1),
{
    let agent = flow.agent;
    let (step, progress) = match (flow.step, reply) {
        (TeardownStep::GettingLedger, TeardownReply::LedgerRead(read)) => match read {
            Ok(ledger) => ask(
                TeardownStep::ReportingLedger,
                TeardownRequest::Report(final_ledger_state(&agent, ledger)),
            ),
            Err(error) => failure(TeardownError::Ledger(error)),
        },
        (TeardownStep::ReportingLedger, TeardownReply::Reported) => ask(
            TeardownStep::GettingActionable,
            TeardownRequest::GetActionable,
        ),
        (TeardownStep::GettingActionable, TeardownReply::ActionableRead(read)) => match read {
            Ok(actionable) => ask(
                TeardownStep::GettingCompleted { actionable },
                TeardownRequest::GetCompleted,
            ),
            Err(error) => failure(TeardownError::Actionable(error)),
        },
        (TeardownStep::GettingCompleted { actionable }, TeardownReply::CompletedRead(read)) =>
            match read {
                Ok(completed) => ask(
                    TeardownStep::GettingParked { actionable, completed },
                    TeardownRequest::GetParked,
                ),
                Err(error) => failure(TeardownError::Completed(error)),
            },
        (TeardownStep::GettingParked { actionable, completed }, TeardownReply::ParkedRead(read)) =>
            match read {
                Ok(parked_spends) => ask(
                    TeardownStep::GettingExecuted { actionable, completed, parked_spends },
                    TeardownRequest::GetExecuted,
                ),
                Err(error) => failure(TeardownError::Parked(error)),
            },
        (
            TeardownStep::GettingExecuted { actionable, completed, parked_spends },
            TeardownReply::ExecutedRead(read),
        ) => match read {
            Ok(executed_agreements) => {
                let counts = FinalCounts {
                    actionable,
                    completed,
                    parked_spends,
                    executed_agreements,
                };
                ask(
                    TeardownStep::ReportingActionable { counts },
                    TeardownRequest::Report(final_actionable_transactions(&agent, &actionable)),
                )
            },
            Err(error) => failure(TeardownError::Executed(error)),
        },
        (TeardownStep::ReportingActionable { counts }, TeardownReply::Reported) => ask(
            TeardownStep::ReportingHistory,
            TeardownRequest::Report(final_history(&agent, &counts)),
        ),
        (TeardownStep::ReportingHistory, TeardownReply::Reported) => ask(
            TeardownStep::Uninstalling,
            TeardownRequest::Uninstall,
        ),
        (TeardownStep::Uninstalling, TeardownReply::Uninstalled(_)) => (
            TeardownStep::Finished,
            Some(Progress::Finish(Ok(()))),
        ),
        (step, _) => (step, None),
    };
    (TeardownFlow { agent, step }, progress)
}

impl TeardownFlow {
    /// How many replies the flow still waits for at most.
    pub open spec fn steps_left(self) -> nat {
        match self.step {
            TeardownStep::GettingLedger => 9,
            TeardownStep::ReportingLedger => 8,
            TeardownStep::GettingActionable => 7,
            TeardownStep::GettingCompleted { actionable: _ } => 6,
            TeardownStep::GettingParked { actionable: _, completed: _ } => 5,
            TeardownStep::GettingExecuted { actionable: _, completed: _, parked_spends: _ } => 4,
            TeardownStep::ReportingActionable { counts: _ } => 3,
            TeardownStep::ReportingHistory => 2,
            TeardownStep::Uninstalling => 1,
            TeardownStep::Finished => 0,
        }
    }
}

/// Tearing down comes to an end: every reply that is answered brings the end closer, and the end is
/// reached with the answer that says so.
pub proof fn law_tearing_down_ends<E>(
    before: TeardownFlow,
    reply: TeardownReply<E>,
    after: TeardownFlow,
    progress: Option<TeardownProgress<E>>,
)
    requires
        before.steps_to(reply, after, progress),
    ensures
        progress is Some ==> after.steps_left() < before.steps_left(),
        progress is Some ==> (progress->0 is Finish <==> after.steps_left() == 0),
        before.steps_left() == 0 ==> progress is None,
{
}

/// The ledger is reported as soon as it is read, whatever becomes of all that is read later.
pub proof fn law_ledger_is_reported_first<E>(
    before: TeardownFlow,
    ledger: String,
    after: TeardownFlow,
    progress: Option<TeardownProgress<E>>,
)
    requires
        before.step is GettingLedger,
        before.steps_to(TeardownReply::LedgerRead(Ok(ledger)), after, progress),
    ensures
        progress matches Some(Progress::Ask(TeardownRequest::Report(metric))) && metric@
            == ledger_state_text(before.agent@, ledger@),
{
}

/// The counts that were read are the counts that are reported: once the last of them is known, the
/// two metrics that hold them follow, and then the app is uninstalled.
pub proof fn law_counts_are_reported<E>(
    flows: Seq<TeardownFlow>,
    answers: Seq<Option<TeardownProgress<E>>>,
    counts: FinalCounts,
)
    requires
        flows.len() == 7,
        answers.len() == 6,
        flows[0].step is GettingActionable,
        flows[0].steps_to(TeardownReply::ActionableRead(Ok(counts.actionable)), flows[1], answers[0]),
        flows[1].steps_to(TeardownReply::CompletedRead(Ok(counts.completed)), flows[2], answers[1]),
        flows[2].steps_to(TeardownReply::ParkedRead(Ok(counts.parked_spends)), flows[3], answers[2]),
        flows[3].steps_to(
            TeardownReply::ExecutedRead(Ok(counts.executed_agreements)),
            flows[4],
            answers[3],
        ),
        flows[4].steps_to(TeardownReply::Reported, flows[5], answers[4]),
        flows[5].steps_to(TeardownReply::Reported, flows[6], answers[5]),
    ensures
        answers[3] matches Some(Progress::Ask(TeardownRequest::Report(metric))) && metric@
            == actionable_text(flows[0].agent@, counts.actionable),
        answers[4] matches Some(Progress::Ask(TeardownRequest::Report(metric))) && metric@
            == history_text(flows[0].agent@, counts),
        answers[5] == Some(TeardownProgress::<E>::Ask(TeardownRequest::Uninstall)),
{
}

/// An app that cannot be uninstalled does not keep an agent from being torn down.
pub proof fn law_uninstalling_cannot_fail_teardown<E>(
    before: TeardownFlow,
    uninstalled: Result<(), E>,
    after: TeardownFlow,
    progress: Option<TeardownProgress<E>>,
)
    requires
        before.step is Uninstalling,
        before.steps_to(TeardownReply::Uninstalled(uninstalled), after, progress),
    ensures
        progress == Some(TeardownProgress::<E>::Finish(Ok(()))),
        after.step is Finished,
{
}

} // verus!
