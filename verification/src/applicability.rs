//! The blocking reasons of one planned mutation, and the status they give it.

use vstd::prelude::*;

verus! {

/// The status of a plan that was found to have the given blocking reasons.
pub open spec fn status_of(reasons: Seq<Seq<char>>) -> Seq<char> {
    if reasons.len() == 0 {
        "applicable"@
    } else {
        "blocked"@
    }
}

/// Blocking a plan that has the reasons `before` with `reason` may leave it
/// with the reasons `after`: the text that `reason` converts into has been
/// added at the end, and nothing else has changed.
pub open spec fn blocked_with<R: Into<String>>(
    before: Seq<Seq<char>>,
    reason: R,
    after: Seq<Seq<char>>,
) -> bool {
    exists|text: String|
        #[trigger] call_ensures(R::into, (reason,), text) && after == before.push(text@)
}

/// `pair` is the `plan_status` / `blocking_reasons` pair of a plan with the
/// given blocking reasons: a JSON string that holds the status, and a JSON
/// array that holds the reasons, each as a JSON string, in order.
pub open spec fn is_json_pair(
    pair: (serde_json::Value, serde_json::Value),
    reasons: Seq<Seq<char>>,
) -> bool {
    &&& crate::json::json_text(pair.0) == Some(status_of(reasons))
    &&& crate::json::json_texts(pair.0) is None
    &&& crate::json::json_texts(pair.1) == Some(reasons)
    &&& crate::json::json_text(pair.1) is None
}

/// Accumulated blocking reasons for one planned mutation. Empty means the
/// plan is safe to apply as evaluated.
///
/// The view of a plan is the sequence of its reasons, oldest first.
#[derive(Debug)]
pub struct PlanApplicability {
    blocking_reasons: Vec<String>,
}

impl View for PlanApplicability {
    type V = Seq<Seq<char>>;

    closed spec fn view(&self) -> Seq<Seq<char>> {
        self.blocking_reasons@.map_values(|reason: String| reason@)
    }
}

impl Default for PlanApplicability {
    /// A plan with no blocking reason.
    fn default() -> (plan: Self)
        ensures
            plan@ == Seq::<Seq<char>>::empty(),
    {
        PlanApplicability { blocking_reasons: Vec::new() }
    }
}

impl Clone for PlanApplicability {
    /// A plan of its own, with the same reasons in the same order.
    fn clone(&self) -> (copy: Self)
        ensures
            copy@ == self@,
    {
        PlanApplicability { blocking_reasons: self.blocking_reasons.clone() }
    }
}

impl PlanApplicability {
    /// The status that the plan reports: `"applicable"` only when it has no
    /// blocking reason, `"blocked"` otherwise.
    pub open spec fn status(&self) -> Seq<char> {
        status_of(self@)
    }

    /// A plan with no blocking reason.
    pub fn new() -> (plan: Self)
        ensures
            plan@ == Seq::<Seq<char>>::empty(),
    {
        Self::default()
    }

    /// Record a reason the plan must not be applied as-is.
    pub fn block<R: Into<String>>(&mut self, reason: R)
        ensures
            blocked_with(old(self)@, reason, final(self)@),
            exists|text: String|
                #[trigger] call_ensures(R::into, (reason,), text) && final(self)@ == old(self)@.push(
                    text@,
                ),
            final(self)@.len() == old(self)@.len() + 1,
            final(self)@.drop_last() == old(self)@,
    {
        let text: String = reason.into();
        self.blocking_reasons.push(text);
        assert(self@ == old(self)@.push(text@));
    }

    /// Whether any reason has been recorded.
    pub fn is_blocked(&self) -> (blocked: bool)
        ensures
            blocked == (self@.len() > 0),
    {
        !self.blocking_reasons.is_empty()
    }

    /// The plan's status as text.
    pub fn status_str(&self) -> (status: &'static str)
        ensures
            status@ == self.status(),
            status@ == "applicable"@ <==> self@.len() == 0,
            status@ == "blocked"@ <==> self@.len() > 0,
    {
        proof {
            crate::laws::status_tells_whether_blocked(self@);
        }
        if self.is_blocked() {
            "blocked"
        } else {
            "applicable"
        }
    }

    /// The recorded reasons, oldest first.
    pub fn blocking_reasons(&self) -> (reasons: &[String])
        ensures
            reasons@.len() == self@.len(),
            forall|i: int| 0 <= i < self@.len() ==> (#[trigger] reasons@[i])@ == self@[i],
    {
        &self.blocking_reasons
    }

    /// The `plan_status` / `blocking_reasons` pair, ready to splice into a
    /// tool's JSON response ahead of `planned_moves` / `applied`.
    pub fn to_json(&self) -> (pair: (serde_json::Value, serde_json::Value))
        ensures
            is_json_pair(pair, self@),
            crate::json::json_text(pair.0) == Some(self.status()),
            crate::json::json_texts(pair.0) is None,
            crate::json::json_texts(pair.1) == Some(self@),
            crate::json::json_text(pair.1) is None,
    {
        let plan_status = crate::json::text_to_value(self.status_str()).unwrap();
        let blocking_reasons = crate::json::texts_to_value(&self.blocking_reasons).unwrap();
        (plan_status, blocking_reasons)
    }
}

} // verus!
