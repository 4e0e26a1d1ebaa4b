use holochain_runner::context::AgentContext;
use holochain_runner::keys::{AgentPubKey, CellId, DnaHash};
use holochain_runner::progress::Progress;
use holochain_runner::report::{
    final_actionable_transactions, final_history, final_ledger_state, ActionableCounts,
    CompletedCounts, FinalCounts, Metric,
};
use holochain_runner::teardown::{
    tear_down, TeardownError, TeardownFlow, TeardownProgress, TeardownReply, TeardownRequest,
    TeardownStep,
};

const AGENT_TEXT: &str = "uhCAk3N3e3-Dh4uPk5ebn6Onq6-zt7u_w8fLz9PX29_j5-vv8_f7_";

const COUNTS: FinalCounts = FinalCounts {
    actionable: ActionableCounts { invoices: 0, spends: 1 },
    completed: CompletedCounts { accepts: 20, spends: 300 },
    parked_spends: 4,
    executed_agreements: 50,
};

fn agent() -> AgentPubKey {
    let mut raw = [0; 39];
    raw[..3].copy_from_slice(&[0x84, 0x20, 0x24]);
    for (i, byte) in raw[3..].iter_mut().enumerate() {
        *byte = 220 + i as u8;
    }
    AgentPubKey { raw }
}

fn metric(name: &str, fields: &[(&str, &str)]) -> Metric {
    let own = |pair: &(&str, &str)| (pair.0.to_string(), pair.1.to_string());
    Metric {
        name: name.to_string(),
        fields: fields.iter().map(own).collect(),
        tags: vec![("agent".to_string(), AGENT_TEXT.to_string())],
    }
}

fn ledger_metric() -> Metric {
    metric("final:ledger_state", &[("ledger", "Ledger { balance: 1 }")])
}

fn actionable_metric() -> Metric {
    metric("final:actionable_transactions", &[("invoices", "0"), ("spends", "1")])
}

fn history_metric() -> Metric {
    metric(
        "final:history",
        &[
            ("actionable_transactions:invoices", "0"),
            ("actionable_transactions:spends", "1"),
            ("completed_transactions:accepts", "20"),
            ("completed_transactions:spends", "300"),
            ("completed_transactions:parked_spends", "4"),
            ("executed_agreements", "50"),
        ],
    )
}

fn begin() -> TeardownFlow {
    let mut ctx = AgentContext::<()>::new("alice".to_string());
    ctx.cell_id = Some(CellId { dna_hash: DnaHash { raw: [0; 39] }, agent_pubkey: agent() });
    let (flow, request) = TeardownFlow::begin(&ctx);
    assert_eq!(request, TeardownRequest::GetLedger);
    flow
}

fn replies() -> Vec<TeardownReply<&'static str>> {
    vec![
        TeardownReply::LedgerRead(Ok("Ledger { balance: 1 }".to_string())),
        TeardownReply::Reported,
        TeardownReply::ActionableRead(Ok(COUNTS.actionable)),
        TeardownReply::CompletedRead(Ok(COUNTS.completed)),
        TeardownReply::ParkedRead(Ok(COUNTS.parked_spends)),
        TeardownReply::ExecutedRead(Ok(COUNTS.executed_agreements)),
        TeardownReply::Reported,
        TeardownReply::Reported,
    ]
}

/// Feeds the replies to a teardown, each of which must be answered.
fn feed(
    replies: Vec<TeardownReply<&'static str>>,
) -> (TeardownFlow, Vec<TeardownProgress<&'static str>>) {
    let mut flow = begin();
    let mut answers = vec![];
    for reply in replies {
        let (next, progress) = tear_down(flow, reply);
        flow = next;
        answers.push(progress.unwrap());
    }
    (flow, answers)
}

#[test]
fn reports_the_final_ledger() {
    assert_eq!(
        final_ledger_state(&agent(), "Ledger { balance: 1 }".to_string()),
        ledger_metric()
    );
}

#[test]
fn reports_the_actionable_transactions() {
    assert_eq!(final_actionable_transactions(&agent(), &COUNTS.actionable), actionable_metric());
}

#[test]
fn reports_the_history() {
    assert_eq!(final_history(&agent(), &COUNTS), history_metric());
}

#[test]
fn metrics_are_tagged_with_the_key_as_it_is_displayed() {
    let shown = holo_hash::AgentPubKey::from_raw_39(agent().raw.to_vec()).to_string();
    assert_eq!(shown, AGENT_TEXT);
    let tag = final_ledger_state(&agent(), String::new()).tags.remove(0);
    assert_eq!(tag, ("agent".to_string(), shown));
}

#[test]
fn texts_tell_keys_apart() {
    for i in 0..39 {
        let mut other = agent();
        other.raw[i] ^= 1;
        assert_ne!(
            final_ledger_state(&agent(), String::new()),
            final_ledger_state(&other, String::new())
        );
    }
}

#[test]
fn tears_down_an_agent() {
    for uninstalled in [Ok(()), Err("already gone")] {
        let mut replies = replies();
        replies.push(TeardownReply::Uninstalled(uninstalled));
        let (flow, answers) = feed(replies);
        assert_eq!(
            answers,
            vec![
                Progress::Ask(TeardownRequest::Report(ledger_metric())),
                Progress::Ask(TeardownRequest::GetActionable),
                Progress::Ask(TeardownRequest::GetCompleted),
                Progress::Ask(TeardownRequest::GetParked),
                Progress::Ask(TeardownRequest::GetExecuted),
                Progress::Ask(TeardownRequest::Report(actionable_metric())),
                Progress::Ask(TeardownRequest::Report(history_metric())),
                Progress::Ask(TeardownRequest::Uninstall),
                Progress::Finish(Ok(())),
            ]
        );
        assert_eq!(flow.step, TeardownStep::Finished);
    }
}

#[test]
fn tearing_down_fails_on_what_cannot_be_read() {
    let failures = vec![
        (0, TeardownReply::LedgerRead(Err("l")), TeardownError::Ledger("l")),
        (2, TeardownReply::ActionableRead(Err("a")), TeardownError::Actionable("a")),
        (3, TeardownReply::CompletedRead(Err("c")), TeardownError::Completed("c")),
        (4, TeardownReply::ParkedRead(Err("p")), TeardownError::Parked("p")),
        (5, TeardownReply::ExecutedRead(Err("e")), TeardownError::Executed("e")),
    ];
    for (at, reply, error) in failures {
        let mut fed: Vec<_> = replies().into_iter().take(at).collect();
        fed.push(reply);
        let (flow, answers) = feed(fed);
        assert_eq!(answers.last(), Some(&Progress::Finish(Err(error))));
        assert_eq!(flow.step, TeardownStep::Finished);
    }
}

#[test]
fn replies_out_of_turn_are_ignored_while_tearing_down() {
    assert_eq!(tear_down::<u8>(begin(), TeardownReply::Reported), (begin(), None));
    assert_eq!(
        tear_down::<u8>(begin(), TeardownReply::Uninstalled(Ok(()))),
        (begin(), None)
    );
}
