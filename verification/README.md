# feedback_tape

Verified core of a real-time video feedback toolkit: a delay line whose Write
and Tap heads share GPU ring-buffer tapes, and a varispeed looper that plays a
shared tape at variable rate.

- `src/` — the verified library (Verus): ring slot arithmetic, delay-time
  resolution, the shared-tape registries with their frame barriers, the
  varispeed read-head tap selection and its per-frame bookkeeping, each with
  contracts and the laws that relate them.
- `tests/` — executable tests of the library on concrete values.
- `app/` — the host-facing side: the C ABI over process-wide registries, the
  OpenGL tape allocation the registries ask for, the runtime loader, and the
  floating-point parameter banks and read-head math.
