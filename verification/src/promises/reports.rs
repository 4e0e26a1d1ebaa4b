//! Promises about the metrics of the domino scenario and its teardown.

use crate::context::AgentContext;
use crate::keys::AgentPubKey;
use crate::progress::Progress;
use crate::promises::agents::{lemma_key_text_spells, spells};
use crate::promises::numerals::{denotes, lemma_decimal_text_denotes};
use crate::report::{
    actionable_text, final_actionable_transactions, final_history, final_ledger_state, history_text,
    ledger_state_text, pair_texts, ActionableCounts, CompletedCounts, FinalCounts, Metric,
};
use crate::teardown::{
    tear_down, TeardownError, TeardownFlow, TeardownProgress, TeardownReply, TeardownRequest,
    TeardownStep,
};
use vstd::prelude::*;

verus! {

/// What a call of [`tear_down`] gives.
pub type TeardownAnswer<E> = (TeardownFlow, Option<TeardownProgress<E>>);

/// A metric is about an agent: its one tag spells the agent's key.
pub open spec fn is_about(metric: Metric, agent: AgentPubKey) -> bool {
    &&& metric.tags@.len() == 1
    &&& metric.tags@[0].0@ == "agent"@
    &&& spells(metric.tags@[0].1@, agent)
}

/// A field of a metric has a name and counts something.
pub open spec fn counts(metric: Metric, i: int, name: Seq<char>, count: usize) -> bool {
    &&& metric.fields@[i].0@ == name
    &&& denotes(metric.fields@[i].1@, count as int)
}

/// A metric tells the state of an agent's ledger.
pub open spec fn tells_ledger(metric: Metric, agent: AgentPubKey, ledger: Seq<char>) -> bool {
    &&& metric.name@ == "final:ledger_state"@
    &&& metric.fields@.len() == 1
    &&& metric.fields@[0].0@ == "ledger"@
    &&& metric.fields@[0].1@ == ledger
    &&& is_about(metric, agent)
}

/// A metric tells how many invoices and spends an agent can still act on.
pub open spec fn tells_actionable(
    metric: Metric,
    agent: AgentPubKey,
    invoices: usize,
    spends: usize,
) -> bool {
    &&& metric.name@ == "final:actionable_transactions"@
    &&& metric.fields@.len() == 2
    &&& counts(metric, 0, "invoices"@, invoices)
    &&& counts(metric, 1, "spends"@, spends)
    &&& is_about(metric, agent)
}

/// A metric tells what an agent did, every count under its own name.
pub open spec fn tells_history(metric: Metric, agent: AgentPubKey, told: FinalCounts) -> bool {
    &&& metric.name@ == "final:history"@
    &&& metric.fields@.len() == 6
    &&& counts(metric, 0, "actionable_transactions:invoices"@, told.actionable.invoices)
    &&& counts(metric, 1, "actionable_transactions:spends"@, told.actionable.spends)
    &&& counts(metric, 2, "completed_transactions:accepts"@, told.completed.accepts)
    &&& counts(metric, 3, "completed_transactions:spends"@, told.completed.spends)
    &&& counts(metric, 4, "completed_transactions:parked_spends"@, told.parked_spends)
    &&& counts(metric, 5, "executed_agreements"@, told.executed_agreements)
    &&& is_about(metric, agent)
}

proof fn lemma_pair(pairs: Seq<(String, String)>, i: int)
    requires
        0 <= i < pairs.len(),
    ensures
        pair_texts(pairs).len() == pairs.len(),
        pair_texts(pairs)[i] == (pairs[i].0@, pairs[i].1@),
{
}

proof fn lemma_tells_ledger(metric: Metric, agent: AgentPubKey, ledger: Seq<char>)
    requires
        metric@ == ledger_state_text(agent@, ledger),
    ensures
        tells_ledger(metric, agent, ledger),
{
    assert(metric@.fields.len() == 1 && metric@.tags.len() == 1);
    lemma_pair(metric.fields@, 0);
    lemma_pair(metric.tags@, 0);
    lemma_key_text_spells(agent);
}

proof fn lemma_tells_actionable(metric: Metric, agent: AgentPubKey, told: ActionableCounts)
    requires
        metric@ == actionable_text(agent@, told),
    ensures
        tells_actionable(metric, agent, told.invoices, told.spends),
{
    assert(metric@.fields.len() == 2 && metric@.tags.len() == 1);
    lemma_pair(metric.fields@, 0);
    lemma_pair(metric.fields@, 1);
    lemma_pair(metric.tags@, 0);
    lemma_decimal_text_denotes(told.invoices as nat);
    lemma_decimal_text_denotes(told.spends as nat);
    lemma_key_text_spells(agent);
}

proof fn lemma_tells_history(metric: Metric, agent: AgentPubKey, told: FinalCounts)
    requires
        metric@ == history_text(agent@, told),
    ensures
        tells_history(metric, agent, told),
{
    assert(metric@.fields.len() == 6 && metric@.tags.len() == 1);
    lemma_pair(metric.fields@, 0);
    lemma_pair(metric.fields@, 1);
    lemma_pair(metric.fields@, 2);
    lemma_pair(metric.fields@, 3);
    lemma_pair(metric.fields@, 4);
    lemma_pair(metric.fields@, 5);
    lemma_pair(metric.tags@, 0);
    lemma_decimal_text_denotes(told.actionable.invoices as nat);
    lemma_decimal_text_denotes(told.actionable.spends as nat);
    lemma_decimal_text_denotes(told.completed.accepts as nat);
    lemma_decimal_text_denotes(told.completed.spends as nat);
    lemma_decimal_text_denotes(told.parked_spends as nat);
    lemma_decimal_text_denotes(told.executed_agreements as nat);
    lemma_key_text_spells(agent);
}

/// The metric on the ledger tells the ledger of the agent.
pub proof fn law_ledger_is_told(agent: &AgentPubKey, ledger: String, metric: Metric)
    requires
        call_ensures(final_ledger_state, (agent, ledger), metric),
    ensures
        tells_ledger(metric, *agent, ledger@),
{
    lemma_tells_ledger(metric, *agent, ledger@);
}

/// The metric on what can still be acted on tells each count under its own name.
pub proof fn law_actionable_counts_are_told(
    agent: &AgentPubKey,
    told: &ActionableCounts,
    metric: Metric,
)
    requires
        call_ensures(final_actionable_transactions, (agent, told), metric),
    ensures
        tells_actionable(metric, *agent, told.invoices, told.spends),
{
    lemma_tells_actionable(metric, *agent, *told);
}

/// The metric on the history tells each count under its own name.
pub proof fn law_history_is_told(agent: &AgentPubKey, told: &FinalCounts, metric: Metric)
    requires
        call_ensures(final_history, (agent, told), metric),
    ensures
        tells_history(metric, *agent, *told),
{
    lemma_tells_history(metric, *agent, *told);
}

/// Tearing down begins with the key of the agent's cell, by reading the ledger.
pub proof fn law_tearing_down_begins<C>(
    ctx: &AgentContext<C>,
    res: (TeardownFlow, TeardownRequest),
)
    requires
        ctx.cell_id is Some,
        call_ensures(TeardownFlow::begin::<C>, (ctx,), res),
    ensures
        res.0.agent == ctx.cell_id->0.agent_pubkey,
        res.0.step is GettingLedger,
        res.1 is GetLedger,
{
}

/// Tearing down never changes its mind about the agent.
pub proof fn law_tearing_down_keeps_its_agent<E>(
    flow: TeardownFlow,
    reply: TeardownReply<E>,
    res: TeardownAnswer<E>,
)
    requires
        call_ensures(tear_down::<E>, (flow, reply), res),
    ensures
        res.0.agent == flow.agent,
{
}

/// The ledger that was read is reported at once, and what can still be acted on is read next.
pub proof fn law_ledger_read_is_reported<E>(
    flow: TeardownFlow,
    ledger: String,
    first: TeardownAnswer<E>,
    second: TeardownAnswer<E>,
)
    requires
        flow.step is GettingLedger,
        call_ensures(tear_down::<E>, (flow, TeardownReply::<E>::LedgerRead(Ok(ledger))), first),
        call_ensures(tear_down::<E>, (first.0, TeardownReply::<E>::Reported), second),
    ensures
        first.0.step is ReportingLedger,
        first.1 matches Some(Progress::Ask(TeardownRequest::Report(metric))) && tells_ledger(
            metric,
            flow.agent,
            ledger@,
        ),
        second.0.step is GettingActionable,
        second.1 matches Some(Progress::Ask(TeardownRequest::GetActionable)),
{
    if let Some(Progress::Ask(TeardownRequest::Report(metric))) = first.1 {
        lemma_tells_ledger(metric, flow.agent, ledger@);
    }
}

/// What was read is kept while the rest is read in turn.
pub proof fn law_counts_read_are_kept<E>(
    flow: TeardownFlow,
    a: ActionableCounts,
    first: TeardownAnswer<E>,
    c: CompletedCounts,
    second: TeardownAnswer<E>,
    parked: usize,
    third: TeardownAnswer<E>,
)
    requires
        flow.step is GettingActionable,
        call_ensures(tear_down::<E>, (flow, TeardownReply::<E>::ActionableRead(Ok(a))), first),
        call_ensures(tear_down::<E>, (first.0, TeardownReply::<E>::CompletedRead(Ok(c))), second),
        call_ensures(tear_down::<E>, (second.0, TeardownReply::<E>::ParkedRead(Ok(parked))), third),
    ensures
        first.1 matches Some(Progress::Ask(TeardownRequest::GetCompleted)),
        second.1 matches Some(Progress::Ask(TeardownRequest::GetParked)),
        third.1 matches Some(Progress::Ask(TeardownRequest::GetExecuted)),
        first.0.step matches TeardownStep::GettingCompleted { actionable } && actionable == a,
        second.0.step matches TeardownStep::GettingParked { actionable, completed } && actionable
            == a && completed == c,
        third.0.step matches TeardownStep::GettingExecuted { actionable, completed, parked_spends }
            && actionable == a && completed == c && parked_spends == parked,
{
}

/// Once all has been read, what can still be acted on is reported, then the history, each count as
/// it was read; then the app is uninstalled.
pub proof fn law_counts_read_are_reported<E>(
    flow: TeardownFlow,
    a: ActionableCounts,
    c: CompletedCounts,
    parked: usize,
    executed: usize,
    first: TeardownAnswer<E>,
    second: TeardownAnswer<E>,
    third: TeardownAnswer<E>,
)
    requires
        flow.step == (TeardownStep::GettingExecuted {
            actionable: a,
            completed: c,
            parked_spends: parked,
        }),
        call_ensures(tear_down::<E>, (flow, TeardownReply::<E>::ExecutedRead(Ok(executed))), first),
        call_ensures(tear_down::<E>, (first.0, TeardownReply::<E>::Reported), second),
        call_ensures(tear_down::<E>, (second.0, TeardownReply::<E>::Reported), third),
    ensures
        first.0.step is ReportingActionable,
        first.1 matches Some(Progress::Ask(TeardownRequest::Report(metric))) && tells_actionable(
            metric,
            flow.agent,
            a.invoices,
            a.spends,
        ),
        second.0.step is ReportingHistory,
        second.1 matches Some(Progress::Ask(TeardownRequest::Report(metric))) && tells_history(
            metric,
            flow.agent,
            (FinalCounts {
                actionable: a,
                completed: c,
                parked_spends: parked,
                executed_agreements: executed,
            }),
        ),
        third.0.step is Uninstalling,
        third.1 matches Some(Progress::Ask(TeardownRequest::Uninstall)),
{
    let told = FinalCounts {
        actionable: a,
        completed: c,
        parked_spends: parked,
        executed_agreements: executed,
    };
    if let Some(Progress::Ask(TeardownRequest::Report(metric))) = first.1 {
        lemma_tells_actionable(metric, flow.agent, a);
    }
    if let Some(Progress::Ask(TeardownRequest::Report(metric))) = second.1 {
        lemma_tells_history(metric, flow.agent, told);
    }
}

/// However uninstalling came out, the agent is torn down.
pub proof fn law_torn_down_however_uninstalled<E>(
    flow: TeardownFlow,
    uninstalled: Result<(), E>,
    res: TeardownAnswer<E>,
)
    requires
        flow.step is Uninstalling,
        call_ensures(tear_down::<E>, (flow, TeardownReply::<E>::Uninstalled(uninstalled)), res),
    ensures
        res.0.step is Finished,
        res.1 matches Some(Progress::Finish(Ok(_))),
{
}

/// Where something cannot be read, tearing down ends with that failure.
pub proof fn law_tearing_down_fails_with_its_request<E>(
    flow: TeardownFlow,
    reply: TeardownReply<E>,
    error: E,
    res: TeardownAnswer<E>,
)
    requires
        call_ensures(tear_down::<E>, (flow, reply), res),
        match flow.step {
            TeardownStep::GettingLedger => reply == TeardownReply::<E>::LedgerRead(Err(error)),
            TeardownStep::GettingActionable => reply == TeardownReply::<E>::ActionableRead(
                Err(error),
            ),
            TeardownStep::GettingCompleted { actionable: _ } => reply
                == TeardownReply::<E>::CompletedRead(Err(error)),
            TeardownStep::GettingParked { actionable: _, completed: _ } => reply
                == TeardownReply::<E>::ParkedRead(Err(error)),
            TeardownStep::GettingExecuted { actionable: _, completed: _, parked_spends: _ } => reply
                == TeardownReply::<E>::ExecutedRead(Err(error)),
            _ => false,
        },
    ensures
        res.0.step is Finished,
        res.1 matches Some(Progress::Finish(Err(failed))) && {
            &&& flow.step is GettingLedger ==> failed == TeardownError::Ledger(error)
            &&& flow.step is GettingActionable ==> failed == TeardownError::Actionable(error)
            &&& flow.step is GettingCompleted ==> failed == TeardownError::Completed(error)
            &&& flow.step is GettingParked ==> failed == TeardownError::Parked(error)
            &&& flow.step is GettingExecuted ==> failed == TeardownError::Executed(error)
        },
{
}

/// A reply that tearing down does not wait for leaves it as it is and is not answered.
pub proof fn law_tearing_down_ignores_other_replies<E>(
    flow: TeardownFlow,
    reply: TeardownReply<E>,
    res: TeardownAnswer<E>,
)
    requires
        call_ensures(tear_down::<E>, (flow, reply), res),
        flow.step is GettingLedger ==> !(reply is LedgerRead),
        flow.step is GettingActionable ==> !(reply is ActionableRead),
        flow.step is GettingCompleted ==> !(reply is CompletedRead),
        flow.step is GettingParked ==> !(reply is ParkedRead),
        flow.step is GettingExecuted ==> !(reply is ExecutedRead),
        flow.step is ReportingLedger || flow.step is ReportingActionable
            || flow.step is ReportingHistory ==> !(reply is Reported),
        flow.step is Uninstalling ==> !(reply is Uninstalled),
    ensures
        res.0 == flow,
        res.1 is None,
{
}

} // verus!
