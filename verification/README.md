# payment-scheduler

A verified core for a small payment platform.

- `src/scheduler.rs` — the payment scheduler as a state machine: an
  administrator, a pause switch, a schedule counter and the schedules by
  identifier. Each request (initialize, schedule, cancel, modify, execute,
  pause, unpause, transfer of the administration) is specified by a spec
  function from the abstract state to the next state and the answer, and the
  executable methods are proved to compute exactly that. A type invariant
  keeps every scheduler well formed: identifiers within `1..=counter`, and
  every stored schedule valid.
- `src/properties.rs` — properties of the scheduler over all states and
  requests: the state invariant, fresh identifiers, refusals that change
  nothing, the pause switch, settled schedules, one-time and recurring
  execution.
- `src/currency.rs` — the rules of the currency service: the supported
  currencies, the checks on exchange-rate updates, the identity pair, the
  normalization of currency codes.
- `src/address.rs` — addresses, compared by their text.
- `app/` — the Soroban contract that keeps the scheduler's state in contract
  storage and carries out the transfers, authorizations and events that the
  library decides on; the database and HTTP side of the currency service.

What is not here: the payout endpoints and their response types, the audit
log that the HTTP handlers write to, and the service configuration. They rest
on a payout service, payout models, an audit service, authentication
middleware and a configuration type that are not part of these sources, so
`app/` neither calls nor imitates them; `app/` defines a minimal `ApiError`
and `ServiceContainer` of its own for the currency endpoints.

`app/` names `tokio-postgres` directly only to turn on its chrono and uuid
row conversions, which `deadpool-postgres` does not enable.

The scheduler keeps its counter when it is initialized, so a schedule created
before initialization keeps its identifier and later schedules get new ones.
