# agent_error_recovery

A policy engine for recovering from failed LLM agent tool calls, written in
Verus: it classifies HTTP statuses into error classes, maps each class to a
recovery action (retry, back off, abort, skip, escalate), escalates once an
attempt limit is reached, and logs every decision.

Layout:

- `src/error_class.rs` – `ErrorClass`, status classification, labels.
- `src/action.rs` – `RecoveryAction` and its labels.
- `src/table.rs` – the class-to-action table (a std `HashMap` keyed by each class's position, viewed as a `Map` on classes).
- `src/policy.rs` – `RecoveryPolicy`, its abstract view, the event log, and the laws that
  relate `set`, `recommend`, `record` and `event_count_for`.
- `src/backoff.rs` – the exponential backoff schedule and its laws.
- `tests/` – executable tests; `app/` – `Display` wrappers for the labels.
