# distributed_cicd

The coordination logic of a small distributed build service, verified with
Verus.

- `src/clock.rs`: the logical clock that stamps each request.
- `src/dispatch.rs`: the coordinator's state and round-robin choice of a
  worker, with the laws of the rotation (cyclic order, every worker reached,
  no repeats within a round).
- `src/handlers.rs`: how the coordinator answers once a worker has replied.
- `src/worker.rs`: what a worker computes for a task.
- `src/text.rs`: decimal output and decimal parsing of numbers.
- `src/client.rs`: the task the client submits and how it renders the answer.
- `src/discovery.rs`: the key layout of the service registry.
- `app/`: the HTTP services, the client binary, the registry calls and the
  build pipeline, which perform the I/O around the library.
