# plan_status

The contract by which a placement planner refuses to apply an unsafe or useless
plan rather than silently executing it, written and proved in Verus.

A planner records blocking reasons in a `PlanApplicability` as it checks a plan.
The plan's status is `"applicable"` only when none were recorded, and
`"blocked"` otherwise; `to_json` gives the `plan_status` / `blocking_reasons`
pair for a tool's JSON response.

- `src/applicability.rs`: `PlanApplicability` and its operations. The view of a
  plan is the sequence of its reasons, oldest first.
- `src/laws.rs`: what the operations promise together, as public proof
  functions.
- `src/json.rs`: what is taken on trust of `serde_json::to_value`.
- `src/reason.rs`: what is taken on trust of the standard library's conversions
  into `String`.
