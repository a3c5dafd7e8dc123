# hisi-rf-rtos-driver

Runtime-neutral task and synchronization contract between radio adapters and
an installed RTOS runtime, verified with Verus.

Layout:

- `src/contract.rs`: task priorities, contract versions, capability and
  execution-mode bit sets, execution profiles, and the compatibility
  relations between them, with their order laws.
- `src/admission.rs`: capacity snapshots, owner-bound reservations, per-owner
  task-resource requirements, atomic multi-owner resource plans and
  reservation batches.
- `src/services.rs`: identities, handles, budgets, wait requests and errors.
- `src/runtime.rs`: the `Runtime` trait and the checks applied in front of
  the installed runtime: validation before installation, the capability
  that gates each capacity query and reservation request, capacity and
  requirement checks, and dispatch, each stated over the contract and
  profile the runtime advertises and the answers it may give.
- `src/conformance/`: the deterministic scenario harness, the contract-v1
  scenario suite and the JSON report writer. A backend keeps, for proofs,
  the record of the actions it was given and its answers; the harness is
  proved to apply each scenario's actions once, in order, and to report the
  first failing step.
- `app/lib.rs`: the firmware-facing entry points: the single installed
  runtime in a critical-section protected static, task spawning through raw
  entry points, unchecked destruction, and the lazily created static
  `Semaphore`.
