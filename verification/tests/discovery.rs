use holochain_runner::context::RunnerContext;
use holochain_runner::discovery::{
    discovery_report, min_agents, try_wait_for_min_agents, WaitError, WaitFlow, WaitReply,
    WaitRequest, WaitStep,
};
use holochain_runner::progress::Progress;
use holochain_runner::text::decimal;

fn begin(min_agents: usize, wait_for: u64) -> WaitFlow {
    let runner = RunnerContext::new("ws://localhost:1".to_string(), "run".to_string());
    let (flow, request) = WaitFlow::begin(&runner, min_agents, wait_for);
    assert_eq!(request, WaitRequest::ConnectAdmin { admin_ws_url: "ws://localhost:1".to_string() });
    flow
}

/// Runs a wait; returns how often the agents were asked for and how many seconds were slept.
fn run(min_agents: usize, wait_for: u64, agents: &[usize]) -> (usize, u64) {
    let (mut polls, mut slept) = (0, 0);
    let (mut flow, mut progress) =
        try_wait_for_min_agents::<u8>(begin(min_agents, wait_for), WaitReply::AdminConnected(Ok(())));
    loop {
        let reply = match progress.unwrap() {
            Progress::Finish(outcome) => {
                assert_eq!(outcome, Ok(()));
                assert_eq!(flow.step, WaitStep::Finished);
                return (polls, slept);
            }
            Progress::Ask(WaitRequest::ListAgents { cell_id: None }) => {
                polls += 1;
                WaitReply::AgentsListed(Ok(agents[polls - 1]))
            }
            Progress::Ask(WaitRequest::Sleep { seconds }) => {
                slept += seconds;
                WaitReply::Slept
            }
            other => panic!("{:?}", other),
        };
        (flow, progress) = try_wait_for_min_agents(flow, reply);
    }
}

#[test]
fn waits_for_two_agents_by_default() {
    assert_eq!(min_agents(None), Some(2));
}

#[test]
fn reads_the_number_of_agents() {
    assert_eq!(min_agents(Some("5")), Some(5));
    assert_eq!(min_agents(Some("+5")), Some(5));
    assert_eq!(min_agents(Some("0012")), Some(12));
    assert_eq!(min_agents(Some("0")), Some(0));
    assert_eq!(min_agents(Some(&usize::MAX.to_string())), Some(usize::MAX));
}

#[test]
fn rejects_what_is_not_a_number() {
    for text in ["", "+", "-1", " 5", "5 ", "five", "1_000", "++1", "5.0", "99999999999999999999999"] {
        assert_eq!(min_agents(Some(text)), None, "{text}");
    }
}

#[test]
fn stops_as_soon_as_there_are_enough_agents() {
    assert_eq!(run(2, 60, &[2]), (1, 0));
    assert_eq!(run(2, 60, &[1, 1, 3]), (3, 2));
    assert_eq!(run(0, 60, &[0]), (1, 0));
}

#[test]
fn too_few_agents_take_up_the_whole_time() {
    assert_eq!(run(2, 4, &[0, 1, 1, 1]), (4, 4));
    assert_eq!(run(2, 1, &[1]), (1, 1));
}

#[test]
fn enough_agents_at_the_last_moment_spare_the_last_second() {
    assert_eq!(run(2, 3, &[1, 1, 2]), (3, 2));
}

#[test]
fn no_time_to_wait_means_no_question() {
    assert_eq!(run(2, 0, &[]), (0, 0));
}

#[test]
fn waiting_fails_as_its_requests_do() {
    let (flow, progress) =
        try_wait_for_min_agents(begin(2, 5), WaitReply::AdminConnected(Err("down")));
    assert_eq!(progress, Some(Progress::Finish(Err(WaitError::ConnectAdmin("down")))));
    assert_eq!(flow.step, WaitStep::Finished);
    let (flow, _) = try_wait_for_min_agents::<&str>(begin(2, 5), WaitReply::AdminConnected(Ok(())));
    let (flow, progress) = try_wait_for_min_agents(flow, WaitReply::AgentsListed(Err("gone")));
    assert_eq!(progress, Some(Progress::Finish(Err(WaitError::ListAgents("gone")))));
    assert_eq!(flow.step, WaitStep::Finished);
}

#[test]
fn replies_out_of_turn_are_ignored_while_waiting() {
    let flow = begin(2, 5);
    assert_eq!(try_wait_for_min_agents::<u8>(flow, WaitReply::Slept), (flow, None));
    assert_eq!(
        try_wait_for_min_agents::<u8>(flow, WaitReply::AgentsListed(Ok(9))),
        (flow, None)
    );
}

#[test]
fn reports_how_long_discovery_took() {
    assert_eq!(discovery_report("agent_1", 12), "Discovery for agent agent_1 took: 12s");
    assert_eq!(discovery_report("", 0), "Discovery for agent  took: 0s");
}

#[test]
fn writes_decimal_numerals_that_read_back() {
    assert_eq!(decimal(0), "0");
    assert_eq!(decimal(9), "9");
    assert_eq!(decimal(10), "10");
    assert_eq!(decimal(65535), "65535");
    assert_eq!(decimal(u64::MAX), "18446744073709551615");
    assert_eq!(min_agents(Some(&decimal(1234567890))), Some(1234567890));
}
