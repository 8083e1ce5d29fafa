# governance_spine — verified evidence plane

A Verus library for GovSec's Evidence Plane: append-only, hash-linked,
Ed25519-signed evidence events grouped into epochs, with signed checkpoints.

- `src/encoding.rs` — lowercase hex, decimal integers, `|`-joined fields, and
  the lemmas that these encodings are injective and free of `|`.
- `src/crypto.rs` — SHA-256 and Ed25519 through `sha2` and `ed25519-dalek`;
  the runtime signing identity (`CryptoEngine`), fingerprints and signature checks.
- `src/system.rs` — the wall clock, the operating system's random source and
  random UUIDs, none of which panics: each failure is a value the caller handles.
- `src/sink.rs` — a handle on an evidence sink that records every call made
  to it and the sink's answers; the record grows only by calling the sink.
- `src/evidence.rs` — event and checkpoint types, canonical hash material,
  `EvidencePlane` (append, checkpoint, resume, sink delivery and ordered
  retry) and the exact specification of snapshot verification, with its
  proved properties: recorded chains verify; deletion, reordering, mixing and
  tail truncation are detected; the hash material determines every covered
  field, so a mutation goes unnoticed only through a SHA-256 collision.
- `src/governed.rs` — the evidence recorded for each governance decision, and
  functions that record it on a plane and hand the decision back unchanged.
- `src/govmem.rs` — GovMem V2 per-session turn history.

`EvidencePlane` and `GovMem` keep their well-formedness as type invariants,
so callers carry no precondition about them.
- `app/` — serde records, `Display` error types, a thread-shared plane and the
  floating-point GovMem settings.
