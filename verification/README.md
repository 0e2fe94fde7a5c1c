# login-base

A small login service whose authentication and session core is written in Verus and proved
against its contracts.

## Layout

- `src/` — the verified library (crate `login_base`):
  - `domain/` — the auth account and player records and the state changes made to them
    (failure counting and lockout, password replacement, reset tokens).
  - `app/ports/` — the interfaces the use cases work through (account repository, compliance,
    observability, token issuance, token sessions) and the business events. Each port states
    its behaviour over a model of its state (the stored accounts, the exclusion answers, the
    events handed over, the accounts tokens were issued for, the active sessions).
  - `app/login/` — the login, authentication, change-password and password-reset use cases.
    Each decision is a verified function of what the ports answered; each service states its
    result, what it saves and what it emits in terms of its ports' state.
  - `app/player_login.rs` — the player login flow.
  - `infra/` — in-memory account, player and session stores, session-token claims and their
    check against the session store, the compliance and observability adapters, and the
    telemetry counters and records.
  - `http/` — request and response bodies and how each route answers.
  - `text.rs` — decimal rendering of integers and string comparison.
- `app/` — the executable: Axum routes, JSON (serde) bodies, JWT encoding and decoding,
  tracing and OpenTelemetry setup, the clock, and the shared handles that let several services
  use one store.
- `tests/` — tests of the library.

The current Unix time is an input of the library's functions; the executable reads the clock.
