# goosefs_sdk

The client side of GooseFS, with its rules proved by Verus.

`src/` is the library. It decides everything that a client has to decide, and touches
no socket, file or clock task by itself:

- `config`: the configuration, from built-in values, a properties file and the
  environment, in this order of rank.
- `error`: the errors, and what a gRPC status is mapped to.
- `fs`: paths, statuses, options, and how a write type is chosen.
- `file_info_cache`: a bounded cache of file metadata with a lifetime.
- `io`: reading and writing. A read, a seek, a write or a close is an operation: a value
  that says what to do next, and takes in what came of it. Checksums, the coalescing of
  ranges, replica plans and chunking stand beside them.
- `metrics`: counters and gauges, what is reported to the master and in which batches,
  and the text for a Pushgateway.
- `context`: how a client is set up, refreshed and closed.

Every function states what it returns, and the laws that hold across functions are the
public proof functions whose names start with `law_`.

`app/` performs what the operations ask for: it opens streams, sends chunks, waits for
items, runs the background tasks and reads the environment. `tests/` runs the library on
concrete values.
