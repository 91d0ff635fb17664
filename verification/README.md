# apartment_manager

The business core of an apartment-management desktop application (rooms,
tenants, leases, monthly bills, deposits, payments, users and permissions),
written in Verus.

- `src/` — the verified library: the room, lease, bill and deposit state
  machines; the bill actions and the violation flow; the statements that the
  storage layer executes and the reading of result rows into records; schema
  migration planning, the statements of each migration step with a model of
  the schema they change (re-running a successful migration changes nothing),
  and a model of bill archiving; password checking, sessions, permission checks and the
  permission cache; error texts and error responses.
- `tests/` — tests of the library on concrete values.
- `app/` — the desktop entry point: logging, the SQLite storage layer that
  executes the library's statements and plans, and the serialisable copies of
  library types.
