# led-wire-driver

A hardware-neutral LED output driver core, verified with Verus.

It separates setup validation, runtime channel writes, backend event
ingress and wire-format packing, so that transport-specific code stays behind
a small backend trait (`LedBackend`).

Layout:

- `src/` — the verified library.
  - `model`, `setup`, `error`, `backend`, `host`: shared value types, the
    backend boundary and the error vocabulary.
  - `driver`: the configuring driver (`ConfiguringDriver` → `Driver`) and its
    engine (registration table, transfer state machine, prepared writes).
  - `api` and `engine`: the typestate driver (`Driver<B, Configuring>` →
    `Driver<B, Ready>`) over prepared, validated setups, and its engine
    with staged, all-or-nothing registration.
  - `pack`: colour-to-wire packing with temporal and spatial policies.
  - `bounded`: the fixed-capacity `heapless::Vec` the driver stores setups
    and backend specs in, with the contracts its calls are used under.
  - `bits`: facts about 32-bit channel masks.
  Public proof functions named `law_*` state the properties that hold across
  calls: what a publish and a commit make the next service offer, what a
  started or refused batch does to the pending set and the frame phases, how
  a stray completion is reported once, that configuration is single-shot,
  and how packing places each channel.
- `app/` — process-wide driver-instance tags (a shared atomic counter) and
  packing straight into backend-reported wire memory.
- `tests/` — scenario tests against a scriptable in-memory backend.
