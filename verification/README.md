# agent_runtime

The core of a local agent runtime: what a run may do, in which order it is written down, and how
it is carried on after the process that ran it is gone.

`src/` is the library. It is written in Verus: its functions are proved to meet their contracts,
but for a few small wrappers around outside calls, whose contracts are believed. These call
`serde_json` (in `json`), `jsonschema` (in `schema`), `url` (in `ocpp`), `sha2` (in `digest`) and
the `Debug` of `str` (in `text`); each says in its comment what it claims. The library performs no
I/O. Where an operation alternates decisions with outside work, the library offers the decisions
as steps: a step takes what came of the last piece of outside work and returns what is to be done
next.

- Budgets, statuses, identifiers and events: `budget`, `status`, `ids`, `events`, `metadata`.
- A run in a process and its durable state: `context`, `recovery`, `positions`, `persistence`,
  `replay`, with laws in `replay_laws`.
- The execution boundary: `record`, `start`, `operations`, `model_call`, `preparation`,
  `governed`, `tool_call`, `retrieval`, `waits`, `resume`, with laws in `harness_laws`.
- Actions, tools and their schemas: `action`, `tools`, `schema`, `json`, `policy`.
- Loops over six phases: `loop_state`, `loop_engine`, with laws in `loop_laws`.
- Knowledge: `knowledge`, `evidence`, `evidence_set`, `merge`, `routing`, and the protocols of two
  backends in `ocpp` and `standards`.
- Who may do what: `identity`, `approval`, `durable_approval`.

`app/` holds the ports, the asynchronous harness that performs the steps, and the adapters.
