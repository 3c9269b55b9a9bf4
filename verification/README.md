# srvcs-movingaverage

A moving (sliding-window) average service. It owns the control flow and
delegates every arithmetic step to two dependencies: `srvcs-sum`, which sums a
list of values, and `srvcs-floatdivide`, which divides one number by another.

## Layout

- `src/` is the verified library.
  - `api.rs`: the service identity (`index`, `Info`) and the dependency
    endpoints (`Deps`).
  - `api_doc.rs`: the API document (`ApiDoc::openapi`): the documented paths,
    operations, statuses and schemas.
  - `reply.rs`: the replies the service sends (`ok`, `unprocessable`,
    `degraded`, `forward`, `malformed`) and how one dependency reply is read
    (`ask`).
  - `evaluation.rs`: an evaluation as a state machine. `begin` validates the
    window and asks for the first window's sum; `SumPending::on_sum` and
    `QuotientPending::on_quotient` take a dependency's reply and say what to ask
    next, or which reply to send.
  - `laws.rs`: what holds across a whole evaluation: the averages are the
    quotients of the window sums in window order, every request lies within the
    values, an out-of-range window asks nothing, and a failed dependency ends
    the evaluation.
- `app/` is the HTTP side: the axum handlers, JSON bodies, the OpenAPI form of
  the API document, and the calls to the dependencies.
- `tests/` drives evaluations against simulated dependencies.
