# Kelpie

Kelpie addresses terminal agents, delivers their messages and supervises them. This
crate holds its rules as a Verus library: every function states what it returns in
`requires` and `ensures`, and Verus proves it.

- `src/domain.rs` durable identifiers, states and intents
- `src/json.rs`, `src/json_text.rs` JSON documents, and reading and writing them
- `src/text.rs` texts: numbers, white space, lines, parts
- `src/envelope.rs` the envelopes that messages travel in, and why none can be forged
- `src/options.rs`, `src/cli.rs`, `src/cli/` the command line, receipts and reports
- `src/client.rs` from a typed command to a request, and from a response to an outcome
- `src/herdr.rs`, `src/herdr_exec.rs` Herdr's protocol, and the order of the work on it
- `src/attribution.rs` what was requested of an agent, and what was observed of it
- `src/daemon.rs`, `src/daemon/` the daemon: framing, routing, the flows of each request
- `app/` the program around the library: sockets, files, threads, the clock

Decisions that alternate with outside work are functions from a state and an event to
the next step. A request is served so (`serve_next`, with `message_next` for the recording
of a message) until it is answered or waits. In each flow of what waits one function does so for the whole request
(`rename_next`, `retire_next`, `adopt_next`, `clear_next`, `start_next`, `prompt_next`,
`renew_next`): it keeps the identifier that the client is answered under, and a law states
the order of its steps. `app/serve.rs` and `app/flows.rs` perform the steps and hand the
events back.

The coordinator and its durable store are not part of this crate. `app/coordinator.rs`
names what the daemon asks of them; `kelpied::serve` runs the daemon over whatever
answers.
