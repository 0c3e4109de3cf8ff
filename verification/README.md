# worker

Request and response primitives for edge workers, with their behaviour stated
as contracts and proved with Verus.

- `src/` is the verified library: HTTP methods, the CORS policy and the
  headers it sets, the edge's request properties and the request-priority
  parser, outbound request options, queue messages and their builders, the
  error type with its decoding of JavaScript errors and its cause chains, D1
  error classification, form entries, the buffering of body chunks for readers,
  the timer future's decisions, and the request record (method, path, whether
  the body was read, whether it may be changed).
- `app/` is the runtime side: it reads the JavaScript objects the runtime hands
  over, awaits its promises and timers, and holds the serde forms of the
  library's types. Every decision on what comes back is made by the library.
- `tests/` runs the library on concrete values.
