# sfo_reuseport

Building blocks of a reuse-port style TCP, UDP and QUIC server that spreads
work over a fixed set of worker threads, with the logic verified by Verus.

## Layout

- `src/` is the verified library.
  - `quic`: the worker that a QUIC datagram belongs to, read from the
    two-byte prefix of its destination connection id.
  - `cid`: the connection-id generator that writes that prefix.
  - `bpf`: the classic and extended BPF programs handed to the kernel for a
    reuse-port group, with small interpreters of both instruction sets.
  - `schedule`: the FNV-1a address hash that picks a worker when no
    connection id is available.
  - `dispatch`, `concurrency`: routing of work from a shared listener to a
    worker, and the per-worker limits on concurrent handlers.
  - `server`, `server_runtime`, `executor`: the lifecycle state of services,
    of the listener registry and of each worker's task table.
  - `config`, `platform`, `error`, `net`, `datagram`, `text`: configuration
    and validation, platform capabilities, errors, addresses, datagram
    copying, decimal rendering.
- `app/` is the unverified shell: the tokio runtime, sockets, system calls
  and the async loops, which ask the library for every decision.
- `tests/` runs the library on concrete values.

## What is proved

Besides each function's contract, `src/` proves that:

- a long-header and a short-header datagram carrying the same connection id
  prefix reach the same worker, and an id issued for worker `w` routes back
  to `w`;
- the classic and the extended BPF programs select the same socket as the
  user-space routing for every datagram that the latter routes;
- routable work is never discarded for lack of a permit: when a worker's
  limit is full the work waits for that worker;
- releasing a concurrency permit undoes taking it, permits name the worker
  whose limit issued them, and over any sequence of acquisitions and
  releases a limit's count is the number of its permits out and never
  exceeds its maximum;
- removing a listener right after registering it restores the registry, and
  closing a service twice hands back nothing the second time.
