//! The metrics that the domino scenario reports when an agent is torn down.

use crate::keys::{encode_key, key_text, AgentPubKey};
use crate::text::{decimal, decimal_text};
use vstd::prelude::*;
use vstd::string::*;

verus! {

/// A metric: what it says, and about whom.
#[derive(Debug, PartialEq, Eq)]
pub struct Metric {
    pub name: String,
    pub fields: Vec<(String, String)>,
    pub tags: Vec<(String, String)>,
}

/// A metric, as text.
#[verifier::ext_equal]
pub struct MetricText {
    pub name: Seq<char>,
    pub fields: Seq<(Seq<char>, Seq<char>)>,
    pub tags: Seq<(Seq<char>, Seq<char>)>,
}

pub open spec fn pair_texts(pairs: Seq<(String, String)>) -> Seq<(Seq<char>, Seq<char>)> {
    pairs.map_values(|pair: (String, String)| (pair.0@, pair.1@))
}

impl View for Metric {
    type V = MetricText;

    open spec fn view(&self) -> MetricText {
        MetricText {
            name: self.name@,
            fields: pair_texts(self.fields@),
            tags: pair_texts(self.tags@),
        }
    }
}

impl Metric {
    /// A metric about an agent that says nothing yet.
    fn about_agent(name: &str, agent: &AgentPubKey) -> (metric: Metric)
        ensures
            metric@ == (MetricText {
                name: name@,
                fields: Seq::empty(),
                tags: seq![("agent"@, key_text(agent@))],
            }),
    {
        let metric = Metric {
            name: name.to_owned(),
            fields: Vec::new(),
            tags: vec![("agent".to_owned(), encode_key(agent))],
        };
        assert(pair_texts(metric.fields@) =~= Seq::empty());
        assert(pair_texts(metric.tags@) =~= seq![("agent"@, key_text(agent@))]);
        metric
    }

    /// Adds a field.
    fn add_field(&mut self, name: &str, value: String)
        ensures
            final(self)@ == (MetricText {
                fields: old(self)@.fields.push((name@, value@)),
                ..old(self)@
            }),
    {
        let ghost before = self.fields@;
        let ghost added = (name@, value@);
        self.fields.push((name.to_owned(), value));
        assert(pair_texts(self.fields@) =~= pair_texts(before).push(added));
    }

    /// Adds a field that counts something.
    fn add_count(&mut self, name: &str, count: usize)
        ensures
            final(self)@ == (MetricText {
                fields: old(self)@.fields.push((name@, decimal_text(count as nat))),
                ..old(self)@
            }),
    {
        self.add_field(name, decimal(count as u64));
    }
}

/// How many transactions an agent can still act on.
#[derive(Debug, Clone, Copy, PartialEq, Eq)]
pub struct ActionableCounts {
    pub invoices: usize,
    pub spends: usize,
}

/// How many transactions an agent has completed.
#[derive(Debug, Clone, Copy, PartialEq, Eq)]
pub struct CompletedCounts {
    pub accepts: usize,
    pub spends: usize,
}

/// How many transactions and agreements an agent has at the end of the scenario.
#[derive(Debug, Clone, Copy, PartialEq, Eq)]
pub struct FinalCounts {
    pub actionable: ActionableCounts,
    pub completed: CompletedCounts,
    pub parked_spends: usize,
    pub executed_agreements: usize,
}

/// The metric that tells the state of an agent's ledger.
pub open spec fn ledger_state_text(agent: Seq<u8>, ledger: Seq<char>) -> MetricText {
    MetricText {
        name: "final:ledger_state"@,
        fields: seq![("ledger"@, ledger)],
        tags: seq![("agent"@, key_text(agent))],
    }
}

/// The metric that tells what an agent can still act on.
pub open spec fn actionable_text(agent: Seq<u8>, actionable: ActionableCounts) -> MetricText {
    MetricText {
        name: "final:actionable_transactions"@,
        fields: seq![
            ("invoices"@, decimal_text(actionable.invoices as nat)),
            ("spends"@, decimal_text(actionable.spends as nat)),
        ],
        tags: seq![("agent"@, key_text(agent))],
    }
}

/// The metric that tells what an agent did.
pub open spec fn history_text(agent: Seq<u8>, counts: FinalCounts) -> MetricText {
    let actionable = counts.actionable;
    let completed = counts.completed;
    MetricText {
        name: "final:history"@,
        fields: seq![
            ("actionable_transactions:invoices"@, decimal_text(actionable.invoices as nat)),
            ("actionable_transactions:spends"@, decimal_text(actionable.spends as nat)),
            ("completed_transactions:accepts"@, decimal_text(completed.accepts as nat)),
            ("completed_transactions:spends"@, decimal_text(completed.spends as nat)),
            ("completed_transactions:parked_spends"@, decimal_text(counts.parked_spends as nat)),
            ("executed_agreements"@, decimal_text(counts.executed_agreements as nat)),
        ],
        tags: seq![("agent"@, key_text(agent))],
    }
}

/// The state of an agent's ledger at the end of the scenario.
pub fn final_ledger_state(agent: &AgentPubKey, ledger: String) -> (metric: Metric)
    ensures
        metric@ == ledger_state_text(agent@, ledger@),
{
    let mut metric = Metric::about_agent("final:ledger_state", agent);
    metric.add_field("ledger", ledger);
    metric
}

/// How many invoices and spends an agent can still act on at the end of the scenario.
pub fn final_actionable_transactions(agent: &AgentPubKey, actionable: &ActionableCounts) -> (metric:
    Metric)
    ensures
        metric@ == actionable_text(agent@, *actionable),
{
    let mut metric = Metric::about_agent("final:actionable_transactions", agent);
    metric.add_count("invoices", actionable.invoices);
    metric.add_count("spends", actionable.spends);
    metric
}

/// What an agent did in the course of the scenario.
pub fn final_history(agent: &AgentPubKey, counts: &FinalCounts) -> (metric: Metric)
    ensures
        metric@ == history_text(agent@, *counts),
{
    let mut metric = Metric::about_agent("final:history", agent);
    metric.add_count("actionable_transactions:invoices", counts.actionable.invoices);
    metric.add_count("actionable_transactions:spends", counts.actionable.spends);
    metric.add_count("completed_transactions:accepts", counts.completed.accepts);
    metric.add_count("completed_transactions:spends", counts.completed.spends);
    metric.add_count("completed_transactions:parked_spends", counts.parked_spends);
    metric.add_count("executed_agreements", counts.executed_agreements);
    metric
}

} // verus!
