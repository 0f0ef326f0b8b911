# vbench

A vector-database benchmark harness whose decisions are verified with Verus.

- `src/` is the verified library: the dataset catalog and in-memory layout,
  recall@k / NDCG@k bookkeeping, the latency histogram, the phase machine
  that drives an adapter through a run, the IPC frame format and reply
  checks, the Strata adapter's commands, the parquet column checks, the
  cache layout and download plan, and the CLI's rules.
- `app/` is the `vbench` program around it: argument parsing, file and
  network I/O, the async adapter trait and the Strata daemon adapter, the
  MessagePack and JSON codecs, and the floating-point statistics.
- `tests/` exercises the library.
