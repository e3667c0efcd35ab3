# schwab_worker

A worker that keeps a list of stock symbols, collects their quotes on a schedule and serves them to
its clients. Its decisions are a Verus library; what only the hosting platform can do stands
around it.

* `src/` is the library. Each job (a request, a scheduled run, a trade of tokens, a collection of
  quotes, a login, the check of a request) is a state machine from state and event to next state
  and action, with a contract that fixes every step. The one thing left open is whether a signed
  token has expired, in the check of a request: that depends on the clock. `fetch_laws`,
  `scheduled_laws` and `login_laws` prove what follows for whole runs: against any host where that
  is possible, otherwise against the model of a host that never fails in `host`. `codec_laws`
  proves that what is encoded arrives unaltered.
* `app/` is the worker itself. It performs the actions (key-value store, database, object storage,
  HTTP, the clock, arithmetic on prices) and hands the outcomes back as events.
* `tests/` runs the machines on hosts in memory, with the real encoders, password hashes and
  tokens.

Outside code that the library calls, and what it relies on, is declared next to the calls in
`codec`, `password` and `token`.
