//! Waiting until enough agents have been discovered.

use crate::context::RunnerContext;
use crate::keys::CellId;
use crate::progress::Progress;
use crate::text::{decimal, decimal_text, parse_usize, parsed_usize};
use vstd::prelude::*;
use vstd::string::*;

verus! {

/// How many agents to wait for where the environment does not say.
pub const DEFAULT_MIN_AGENTS: usize = 2;

/// Reads the number of agents to wait for from the value of the `MIN_AGENTS` variable, if it is
/// set. Returns `None` where the value is not a number.
pub fn min_agents(variable: Option<&str>) -> (wanted: Option<usize>)
    ensures
        variable is Some ==> wanted == parsed_usize(variable->0@),
        variable is None ==> wanted == Some(DEFAULT_MIN_AGENTS),
{
    match variable {
        Some(numeral) => parse_usize(numeral),
        None => Some(DEFAULT_MIN_AGENTS),
    }
}

/// What waiting asks for.
#[derive(Debug, PartialEq, Eq)]
pub enum WaitRequest {
    /// Connect to the admin interface.
    ConnectAdmin { admin_ws_url: String },
    /// Ask for the agents that the conductor has discovered, in a cell or in all of them.
    ListAgents { cell_id: Option<CellId> },
    /// Sleep.
    Sleep { seconds: u64 },
}

/// What comes back. `E` is what a failed request came back with.
#[derive(Debug, PartialEq, Eq)]
pub enum WaitReply<E> {
    AdminConnected(Result<(), E>),
    /// How many agents the conductor has discovered.
    AgentsListed(Result<usize, E>),
    Slept,
}

/// Why waiting was given up.
#[derive(Debug, PartialEq, Eq)]
pub enum WaitError<E> {
    /// Connecting to the admin interface failed.
    ConnectAdmin(E),
    /// Asking for the agents failed.
    ListAgents(E),
}

/// How far waiting has come. `polls` counts how often the conductor may still be asked, the asking
/// under way included.
#[derive(Debug, Clone, Copy, PartialEq, Eq)]
pub enum WaitStep {
    ConnectingAdmin { polls: u64 },
    ListingAgents { polls: u64 },
    Sleeping { polls: u64 },
    Finished,
}

/// A wait for a minimum number of agents.
#[derive(Debug, Clone, Copy, PartialEq, Eq)]
pub struct WaitFlow {
    pub min_agents: usize,
    pub step: WaitStep,
}

/// What a wait flow answers.
pub type WaitProgress<E> = Progress<WaitRequest, (), WaitError<E>>;

impl WaitFlow {
    /// The conductor is asked only while it may be.
    pub open spec fn well_formed(self) -> bool {
        match self.step {
            WaitStep::ListingAgents { polls } => polls > 0,
            WaitStep::Sleeping { polls } => polls > 0,
            _ => true,
        }
    }

    pub open spec fn at(self, step: WaitStep) -> Self {
        WaitFlow { step, ..self }
    }

    /// Asks for the agents while there are polls left, and stops waiting otherwise.
    pub open spec fn poll<E>(self, polls: int) -> (Self, Option<WaitProgress<E>>) {
        if polls > 0 {
            (
                self.at(WaitStep::ListingAgents { polls: polls as u64 }),
                Some(Progress::Ask(WaitRequest::ListAgents { cell_id: None })),
            )
        } else {
            (self.at(WaitStep::Finished), Some(Progress::Finish(Ok(()))))
        }
    }

    /// What follows a reply.
    pub open spec fn next<E>(self, reply: WaitReply<E>) -> (Self, Option<WaitProgress<E>>) {
        match (self.step, reply) {
            (WaitStep::ConnectingAdmin { polls }, WaitReply::AdminConnected(Ok(_))) => self.poll(
                polls as int,
            ),
            (WaitStep::ConnectingAdmin { polls: _ }, WaitReply::AdminConnected(Err(error))) => (
                self.at(WaitStep::Finished),
                Some(Progress::Finish(Err(WaitError::ConnectAdmin(error)))),
            ),
            (WaitStep::ListingAgents { polls }, WaitReply::AgentsListed(Ok(agents))) => if agents
                >= self.min_agents {
                (self.at(WaitStep::Finished), Some(Progress::Finish(Ok(()))))
            } else {
                (
                    self.at(WaitStep::Sleeping { polls }),
                    Some(Progress::Ask(WaitRequest::Sleep { seconds: 1 })),
                )
            },
            (WaitStep::ListingAgents { polls: _ }, WaitReply::AgentsListed(Err(error))) => (
                self.at(WaitStep::Finished),
                Some(Progress::Finish(Err(WaitError::ListAgents(error)))),
            ),
            (WaitStep::Sleeping { polls }, WaitReply::Slept) => self.poll(polls - 1),
            _ => (self, None),
        }
    }

    /// Begins to wait for up to `wait_for` whole seconds.
    pub fn begin(runner: &RunnerContext, min_agents: usize, wait_for: u64) -> (res: (
        WaitFlow,
        WaitRequest,
    ))
        ensures
            res.0 == (WaitFlow { min_agents, step: WaitStep::ConnectingAdmin { polls: wait_for } }),
            res.0.well_formed(),
            res.1 == (WaitRequest::ConnectAdmin { admin_ws_url: runner.connection_string }),
    {
        (
            WaitFlow { min_agents, step: WaitStep::ConnectingAdmin { polls: wait_for } },
            WaitRequest::ConnectAdmin { admin_ws_url: runner.connection_string.clone() },
        )
    }
}

/// Asks for the agents while there are polls left, and stops waiting otherwise.
fn next_poll<E>(polls: u64) -> (res: (WaitStep, Option<WaitProgress<E>>))
    ensures
        res == (if polls > 0 {
            (
                WaitStep::ListingAgents { polls },
                Some(
                    Progress::<_, (), WaitError<E>>::Ask(WaitRequest::ListAgents { cell_id: None }),
                ),
            )
        } else {
            (WaitStep::Finished, Some(Progress::Finish(Ok(()))))
        }),
{
    if polls > 0 {
        (
            WaitStep::ListingAgents { polls },
            Some(Progress::Ask(WaitRequest::ListAgents { cell_id: None })),
        )
    } else {
        (WaitStep::Finished, Some(Progress::Finish(Ok(()))))
    }
}

/// Takes a wait one reply further.
///
/// The conductor is asked once a second, until it has discovered enough agents or the time is up;
/// too few agents are not an error.
pub fn try_wait_for_min_agents<E>(flow: WaitFlow, reply: WaitReply<E>) -> (res: (
    WaitFlow,
    Option<WaitProgress<E>>,
))
    ensures
        res == flow.next(reply),
        flow.well_formed() ==> res.0.well_formed(),
{
    let (step, progress) = match (flow.step, reply) {
        (WaitStep::ConnectingAdmin { polls }, WaitReply::AdminConnected(Ok(_))) => next_poll(polls),
        (WaitStep::ConnectingAdmin { polls: _ }, WaitReply::AdminConnected(Err(error))) => (
            WaitStep::Finished,
            Some(Progress::Finish(Err(WaitError::ConnectAdmin(error)))),
        ),
        (WaitStep::ListingAgents { polls }, WaitReply::AgentsListed(Ok(agents))) => {
            if agents >= flow.min_agents {
                (WaitStep::Finished, Some(Progress::Finish(Ok(()))))
            } else {
                (
                    WaitStep::Sleeping { polls },
                    Some(Progress::Ask(WaitRequest::Sleep { seconds: 1 })),
                )
            }
        },
        (WaitStep::ListingAgents { polls: _ }, WaitReply::AgentsListed(Err(error))) => (
            WaitStep::Finished,
            Some(Progress::Finish(Err(WaitError::ListAgents(error)))),
        ),
        (WaitStep::Sleeping { polls }, WaitReply::Slept) => next_poll(
            if polls > 0 {
                polls - 1
            } else {
                0
            },
        ),
        (step, _) => (step, None),
    };
    (WaitFlow { min_agents: flow.min_agents, step }, progress)
}

/// What to report when waiting is over: how many whole seconds it took.
pub fn discovery_report(agent_name: &str, seconds: u64) -> (report: String)
    ensures
        report@ == "Discovery for agent "@ + agent_name@ + " took: "@ + decimal_text(seconds as nat)
            + "s"@,
{
    let seconds = decimal(seconds);
    "Discovery for agent ".to_owned().concat(agent_name).concat(" took: ").concat(
        seconds.as_str(),
    ).concat("s")
}

/// What a wait comes to: how often the conductor is asked, how many seconds are slept, and how the
/// wait ends.
pub struct Wait<E> {
    pub polls: nat,
    pub seconds: nat,
    pub outcome: Option<Result<(), WaitError<E>>>,
}

/// What a wait comes to that has just asked for the agents, where the conductor answers `agents(k)`
/// to the `k`-th question and `asked` questions have been answered before.
pub open spec fn wait_from<E>(flow: WaitFlow, agents: spec_fn(nat) -> usize, asked: nat) -> Wait<E>
    decreases
            (match flow.step {
                WaitStep::ListingAgents { polls } => polls as nat,
                _ => 0,
            }),
{
    let (listed, progress) = flow.next::<E>(WaitReply::AgentsListed(Ok(agents(asked))));
    match progress {
        Some(Progress::Ask(WaitRequest::Sleep { seconds })) => {
            let (slept, progress) = listed.next::<E>(WaitReply::Slept);
            match progress {
                Some(Progress::Ask(WaitRequest::ListAgents { cell_id: _ })) => {
                    let rest = wait_from::<E>(slept, agents, asked + 1);
                    Wait {
                        polls: rest.polls + 1,
                        seconds: rest.seconds + seconds as nat,
                        outcome: rest.outcome,
                    }
                },
                Some(Progress::Finish(outcome)) => Wait {
                    polls: 1,
                    seconds: seconds as nat,
                    outcome: Some(outcome),
                },
                _ => Wait { polls: 1, seconds: seconds as nat, outcome: None },
            }
        },
        Some(Progress::Finish(outcome)) => Wait { polls: 1, seconds: 0, outcome: Some(outcome) },
        _ => Wait { polls: 1, seconds: 0, outcome: None },
    }
}

/// What a whole wait comes to, once the admin interface is connected.
pub open spec fn wait<E>(min_agents: usize, wait_for: u64, agents: spec_fn(nat) -> usize) -> Wait<E> {
    let flow = WaitFlow { min_agents, step: WaitStep::ConnectingAdmin { polls: wait_for } };
    let (connected, progress) = flow.next::<E>(WaitReply::AdminConnected(Ok(())));
    match progress {
        Some(Progress::Ask(WaitRequest::ListAgents { cell_id: _ })) => wait_from(connected, agents, 0),
        Some(Progress::Finish(outcome)) => Wait { polls: 0, seconds: 0, outcome: Some(outcome) },
        _ => Wait { polls: 0, seconds: 0, outcome: None },
    }
}

/// A wait of which the first `end` answers are too few, and which ends with the next answer or for
/// want of polls.
proof fn lemma_wait_from<E>(
    flow: WaitFlow,
    polls: u64,
    agents: spec_fn(nat) -> usize,
    asked: nat,
    end: nat,
)
    requires
        flow.step == (WaitStep::ListingAgents { polls }),
        polls > 0,
        asked <= end <= asked + polls,
        forall|k: nat| asked <= k < end ==> #[trigger] agents(k) < flow.min_agents,
        end < asked + polls ==> agents(end) >= flow.min_agents,
    ensures
        wait_from::<E>(flow, agents, asked) == (Wait::<E> {
            polls: if end < asked + polls {
                (end - asked + 1) as nat
            } else {
                polls as nat
            },
            seconds: (end - asked) as nat,
            outcome: Some(Ok(())),
        }),
    decreases polls,
{
    if asked < end {
        assert(agents(asked) < flow.min_agents);
        if polls > 1 {
            let next = flow.at(WaitStep::ListingAgents { polls: (polls - 1) as u64 });
            lemma_wait_from::<E>(next, (polls - 1) as u64, agents, asked + 1, end);
        }
    }
}

/// Waiting stops as soon as the conductor has discovered enough agents: after one second for each
/// answer before, and without an error.
pub proof fn law_wait_stops_at_enough_agents<E>(
    min_agents: usize,
    wait_for: u64,
    agents: spec_fn(nat) -> usize,
    enough: nat,
)
    requires
        enough < wait_for,
        agents(enough) >= min_agents,
        forall|k: nat| k < enough ==> #[trigger] agents(k) < min_agents,
    ensures
        wait::<E>(min_agents, wait_for, agents) == (Wait::<E> {
            polls: enough + 1,
            seconds: enough,
            outcome: Some(Ok(())),
        }),
{
    let flow = WaitFlow { min_agents, step: WaitStep::ListingAgents { polls: wait_for } };
    lemma_wait_from::<E>(flow, wait_for, agents, 0, enough);
}

/// Where too few agents are ever discovered, waiting takes up the whole time and ends without an
/// error.
pub proof fn law_too_few_agents_are_no_error<E>(
    min_agents: usize,
    wait_for: u64,
    agents: spec_fn(nat) -> usize,
)
    requires
        forall|k: nat| k < wait_for ==> #[trigger] agents(k) < min_agents,
    ensures
        wait::<E>(min_agents, wait_for, agents) == (Wait::<E> {
            polls: wait_for as nat,
            seconds: wait_for as nat,
            outcome: Some(Ok(())),
        }),
{
    if wait_for > 0 {
        let flow = WaitFlow { min_agents, step: WaitStep::ListingAgents { polls: wait_for } };
        lemma_wait_from::<E>(flow, wait_for, agents, 0, wait_for as nat);
    }
}

/// The first of `agents(from)`, `agents(from + 1)`, ... that is enough, or `until` if none before
/// is.
spec fn first_enough(agents: spec_fn(nat) -> usize, min_agents: usize, from: nat, until: nat) -> nat
    decreases until - from,
{
    if from >= until || agents(from) >= min_agents {
        from
    } else {
        first_enough(agents, min_agents, from + 1, until)
    }
}

proof fn lemma_first_enough(
    agents: spec_fn(nat) -> usize,
    min_agents: usize,
    from: nat,
    until: nat,
)
    requires
        from <= until,
    ensures
        from <= first_enough(agents, min_agents, from, until) <= until,
        first_enough(agents, min_agents, from, until) < until ==> agents(
            first_enough(agents, min_agents, from, until),
        ) >= min_agents,
        forall|k: nat|
            from <= k < first_enough(agents, min_agents, from, until) ==> #[trigger] agents(k)
                < min_agents,
    decreases until - from,
{
    if from < until && agents(from) < min_agents {
        lemma_first_enough(agents, min_agents, from + 1, until);
    }
}

/// Waiting takes no longer than it may, asks no more often than once for each second of it, and
/// never fails over what the conductor answers.
pub proof fn law_wait_is_bounded<E>(min_agents: usize, wait_for: u64, agents: spec_fn(nat) -> usize)
    ensures
        wait::<E>(min_agents, wait_for, agents).seconds <= wait_for,
        wait::<E>(min_agents, wait_for, agents).polls <= wait_for,
        wait::<E>(min_agents, wait_for, agents).outcome == Some(Ok::<(), WaitError<E>>(())),
{
    let end = first_enough(agents, min_agents, 0, wait_for as nat);
    lemma_first_enough(agents, min_agents, 0, wait_for as nat);
    if end < wait_for {
        law_wait_stops_at_enough_agents::<E>(min_agents, wait_for, agents, end);
    } else {
        law_too_few_agents_are_no_error::<E>(min_agents, wait_for, agents);
    }
}

impl WaitFlow {
    /// How many replies the flow still waits for at most.
    pub open spec fn steps_left(self) -> nat {
        match self.step {
            WaitStep::ConnectingAdmin { polls } => (2 * polls + 1) as nat,
            WaitStep::ListingAgents { polls } => (2 * polls) as nat,
            WaitStep::Sleeping { polls } => (2 * polls - 1) as nat,
            WaitStep::Finished => 0,
        }
    }
}

/// Waiting comes to an end: every reply that is answered brings the end closer, and the end is
/// reached with the answer that says so.
pub proof fn law_waiting_ends<E>(flow: WaitFlow, reply: WaitReply<E>)
    requires
        flow.well_formed(),
    ensures
        flow.next(reply).1 is Some ==> flow.next(reply).0.steps_left() < flow.steps_left(),
        flow.next(reply).1 matches Some(progress) ==> (progress is Finish <==> flow.next(
            reply,
        ).0.steps_left() == 0),
        flow.steps_left() == 0 ==> flow.next(reply).1 is None,
{
}

} // verus!
