# YAIMA

Yet Another Identity Management API: accounts with passwords and roles, access and
refresh tokens, and logins with Google and GitHub.

## Layout

- `src/` is the library. It holds every decision of the service and is verified with
  Verus.
  - `config`, `errors`, `models`, `state`: the domain types.
  - `services`: passwords and tokens (`token`), users (`user`), registration and login
    (`auth`), the OAuth 2.0 flow (`oauth`). An operation that needs the database is an
    exchange with it: a step asks one thing of the store (`store`, `flow`), and goes on
    with the answer.
  - `services/draws.rs` holds what a step draws from the clock and from chance; the
    functions whose name ends in `_by` take the draws as an argument.
  - `services/tables.rs` says what the store holds and what its answers mean;
    `services/laws.rs` and `routes/laws.rs` prove what whole operations come to.
  - `middleware`, `routes`: who may call what, and what each endpoint begins.
  - `outside`: the calls into other crates, with what is relied on of each.
- `app/` is the server around the library: HTTP, PostgreSQL, Redis and the providers.
- `tests/` runs the library, with an in-memory store in place of the database.
