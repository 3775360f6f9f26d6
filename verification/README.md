# maknae_kernel

The decision logic of the Maknae trust-plane daemon, written in Verus and
proved against its contracts.

`src/` is the verified library:

- `accept` — the accept loop's step function: capacity, fast-close, and the
  drains that end it, in the order its first terminal event decides.
- `authz`, `groupres` — connection admission and fail-closed group membership.
- `blocking_guard` — the circuit breaker that bounds blocking work.
- `serve` — the per-connection step function: admission, the one request
  frame, the policy decision and the reply, with audit-then-respond proved.
- `handler` — the verb vocabulary, dispatch, the lexical read-path pre-gate,
  obligation discharge, the policy request and the delegated-descriptor plan.
- `ceiling_authz`, `classification` — the mandatory classification ceiling
  operand and the compiled-in classification systems.
- `mutation`, `mutation_exchange`, `mutation_lane` — mutation admission and
  planning, the validation and acknowledgment of client-reported mutation
  progress, and the lane that appends each report's audit record before
  acknowledging it.
- `egress`, `egress_socket` — what may leave for the model provider, the
  audit outcome of a send, and the step function of one exchange with the
  deputy: peer and request checks before the first write, the reply cap
  before allocation.
- `boot_gate`, `posture`, `run` — boot gates, credential posture, the
  RFC 3339 timestamp, exit codes and the posture-marker read. The boot gate's
  `path_is_within_prefix` is written here, with its contract, because the
  configuration crate that holds the daemon's own copy of that check is not
  part of this repository.
- `paths`, `decimal` — byte-level path predicates and decimal spellings.

`app/` holds the operating-system edges: account and group lookups, the
deputy socket's budgeted reads and writes, the bounded shutdown drains, and
drivers that run `accept::accept_step` against the listener,
`serve::step` against a connection's I/O, `SocketEgress::deputy_step`
against the deputy socket and
`mutation_lane::exchange_step` against a mutation's report exchange.
