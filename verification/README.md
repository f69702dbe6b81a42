# tamanduauth

Registration and login for the Tamanduauth service.

- `src/` is the verified library. Each command (`commands/`) is a state
  machine: it is started with the request's data, and each `step` takes what a
  service answered and gives the next state and the next action (check a code,
  send a mail, store a record, or finish with a result). The contracts state
  every transition; the `law_*` proof functions state what whole runs end with.
  `controllers/` maps results to HTTP statuses, `services/` holds the domain
  records, the UFABC address rule and the in-flight window setting.
- `app/` is the HTTP server (warp), the PostgreSQL and SMTP services (sqlx,
  lettre) and the loops that run the state machines against them.
