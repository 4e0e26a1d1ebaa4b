# holochain_runner

The decisions that a Holochain load-test runner takes, written in Rust and proved with Verus.

A scenario sets up a conductor and its agents, lets the agents act, and tears them down. Each of
these tasks is a flow: a state machine that asks for one piece of I/O at a time and decides, from
what came back, what to ask for next or how the task has ended. The flows hold no sockets, so they
can be verified for every reply that a conductor may give.

- `src/` holds the flows, the data they work on, and the laws that they obey.
- `app/` drives the flows against a conductor and runs the domino scenario.
- `tests/` runs the flows on concrete replies, and the outside crates that the library calls.

What is not proved is stated where it is used: each function marked `external_body` says which
outside function it calls and what is claimed of it.
