# harness

The management core of a live workflow harness, written in Verus: every
function in `src/` carries a contract that Verus proves, except the trusted
wrappers over `sha2`, `uuid` and `serde_json` (and one specification of
`String::push`), whose contracts are stated from those crates' sources and
documentation.

## Layout

- `src/` — the verified library.
  - `lifecycle`, `lifecycle_intent`, `operation_journal` — process-lifecycle
    command envelopes, the durable intent records of each operation and the
    idempotent operation journal they agree with.
  - `lifecycle_readiness`, `readiness_wait` — readiness evidence and the
    bounded wait for a gameplay milestone.
  - `save_profile_setup` — admission of save-profile setup requests.
  - `inference_profile`, `inference_profile_revision`, `revision_journal_memory`
    — sealed inference-profile revisions and their compare-and-swap journal.
  - `live_node` — the node executor: decisions bound to the observation and
    catalog they were made for, intents recorded before either boundary is
    crossed, and actions that advance a run only on a verified settlement.
  - `served_live`, `served_session`, `managed_render` — the served live
    session: authority, lease, observation, policy and profile fences around
    every gateway dispatch and paid decision, with a ghost log of port calls.
  - `served_boundary` — the exact managed application boundary: approvals,
    fences, the recording write port and the durable receipt ledger that keeps
    one approval from being written twice.
  - `provider_policy`, `provider_policy_projection`,
    `provider_session_inspection` — run-scoped provider-session policy
    commands, their bounded metadata view, and session inspection.
  - `authoring_inference`, `authoring_proposal` — the admission fences and
    outcome decisions of proposal-only authoring inference, and the endpoint
    that admits a request before it reserves an operation and reserves it
    before the provider is contacted.
- `tests/` — tests of the library against concrete values.
- `app/` — the file and SQLite owners: they read and write, and leave every
  decision to the library.
