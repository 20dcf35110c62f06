# erp

The chart-of-accounts core of a small ERP system, verified with Verus.

`src/` is the verified library:

- `account_type`, `account_category`: the account types and categories,
  their names, case-insensitive parsing and which categories belong to
  which type.
- `account`: accounts, the database rows they are stored as, opening an
  account and posting to its balance.
- `ids`, `time`, `money`: identifiers (UUIDs), timestamps and decimal
  amounts, as the `uuid`, `chrono` and `rust_decimal` crates hold and
  write them.
- `error`: the backend's errors and the responses sent for them.
- `config`: the configuration, its defaults and the environment overrides.
- `commands`: the account commands as a protocol: each step decides the next
  database operation or the reply.
- `frontend`: the choices the frontend offers and the state of its pages.

`app/` is the program around it: loading the environment and reading the
configuration file, the PostgreSQL queries (`sqlx`), the loop that runs the
command protocol against the database, and the web frontend (`dioxus`)
that renders the pages and calls the backend.
