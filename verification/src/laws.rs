//! What the operations of [`PlanApplicability`] promise together.
//!
//! The first laws speak of plans by their views, which are what the contracts of
//! the operations speak of. The laws from [`new_plan_has_no_reason`] on speak of
//! calls: each takes what certain calls of the operations may have been given
//! and may have returned, and relates the results to one another, the reasons
//! of a plan being those that `blocking_reasons` lists.

use vstd::prelude::*;

use crate::applicability::PlanApplicability;

verus! {

/// The status is `"applicable"` if and only if no blocking reason was found,
/// and `"blocked"` if and only if one was.
pub proof fn status_tells_whether_blocked(reasons: Seq<Seq<char>>)
    ensures
        crate::applicability::status_of(reasons) == "applicable"@ <==> reasons.len() == 0,
        crate::applicability::status_of(reasons) == "blocked"@ <==> reasons.len() > 0,
{
    reveal_strlit("applicable");
    reveal_strlit("blocked");
    assert("applicable"@.len() != "blocked"@.len());
}

/// A plan that is blocked with a borrowed text names it: that very text is its
/// newest reason, the older reasons stay as they were, and its status is
/// `"blocked"`.
pub proof fn borrowed_reason_is_named(
    before: PlanApplicability,
    reason: &str,
    after: PlanApplicability,
)
    requires
        crate::applicability::blocked_with(before@, reason, after@),
    ensures
        after@ == before@.push(reason@),
        after.status() == "blocked"@,
{
}

/// A plan that is blocked with an owned text names it: that very text is its
/// newest reason, the older reasons stay as they were, and its status is
/// `"blocked"`.
pub proof fn owned_reason_is_named(
    before: PlanApplicability,
    reason: String,
    after: PlanApplicability,
)
    requires
        crate::applicability::blocked_with(before@, reason, after@),
    ensures
        after@ == before@.push(reason@),
        after.status() == "blocked"@,
{
}

/// A plan that is blocked with a reference to an owned text names it: that very
/// text is its newest reason, the older reasons stay as they were, and its
/// status is `"blocked"`.
pub proof fn string_reference_reason_is_named(
    before: PlanApplicability,
    reason: &String,
    after: PlanApplicability,
)
    requires
        crate::applicability::blocked_with(before@, reason, after@),
    ensures
        after@ == before@.push(reason@),
        after.status() == "blocked"@,
{
}

/// A plan that is blocked with a mutably borrowed text names it: the text that
/// was handed over is its newest reason, the older reasons stay as they were,
/// and its status is `"blocked"`. The borrowed text itself is left unchanged.
pub proof fn mutable_slice_reason_is_named(
    before: PlanApplicability,
    reason: &mut str,
    after: PlanApplicability,
)
    requires
        crate::applicability::blocked_with(before@, reason, after@),
    ensures
        after@ == before@.push(old(reason)@),
        after.status() == "blocked"@,
        final(reason)@ == old(reason)@,
{
}

/// A plan that is blocked with a boxed text names it: that very text is its
/// newest reason, the older reasons stay as they were, and its status is
/// `"blocked"`.
pub proof fn boxed_reason_is_named(
    before: PlanApplicability,
    reason: Box<str>,
    after: PlanApplicability,
)
    requires
        crate::applicability::blocked_with(before@, reason, after@),
    ensures
        after@ == before@.push(reason@),
        after.status() == "blocked"@,
{
}

/// A plan that is blocked with a text that may be borrowed or owned names it:
/// that very text is its newest reason, the older reasons stay as they were,
/// and its status is `"blocked"`.
pub proof fn cow_reason_is_named(
    before: PlanApplicability,
    reason: std::borrow::Cow<'_, str>,
    after: PlanApplicability,
)
    requires
        crate::applicability::blocked_with(before@, reason, after@),
    ensures
        after@ == before@.push(reason@),
        after.status() == "blocked"@,
{
}

/// A plan that is blocked with a single character names it: the text of that
/// one character is its newest reason, the older reasons stay as they were,
/// and its status is `"blocked"`.
pub proof fn character_reason_is_named(
    before: PlanApplicability,
    reason: char,
    after: PlanApplicability,
)
    requires
        crate::applicability::blocked_with(before@, reason, after@),
    ensures
        after@ == before@.push(seq![reason]),
        after.status() == "blocked"@,
{
}

/// Whatever its reason is converted from, one call of `block` leaves the plan
/// blocked and takes back no earlier reason.
pub proof fn blocking_is_permanent<R: Into<String>>(
    before: PlanApplicability,
    reason: R,
    after: PlanApplicability,
)
    requires
        crate::applicability::blocked_with(before@, reason, after@),
    ensures
        after@.len() > 0,
        after.status() == "blocked"@,
        before@.is_prefix_of(after@),
{
}

/// `plans` runs through the states of one plan, and each state differs from
/// the one before by a further reason: `reasons[i]` was recorded between
/// `plans[i]` and `plans[i + 1]`.
pub open spec fn is_history(plans: Seq<PlanApplicability>, reasons: Seq<Seq<char>>) -> bool {
    &&& plans.len() == reasons.len() + 1
    &&& forall|i: int|
        0 <= i < reasons.len() ==> plans[i + 1]@ == plans[i]@.push(#[trigger] reasons[i])
}

/// A plan accumulates: after any number of calls of `block` it has the reasons
/// it began with, followed by the recorded ones in the order of the calls,
/// each as often as it was recorded.
pub proof fn reasons_accumulate_in_order(
    plans: Seq<PlanApplicability>,
    reasons: Seq<Seq<char>>,
)
    requires
        is_history(plans, reasons),
    ensures
        plans.last()@ == plans.first()@ + reasons,
    decreases reasons.len(),
{
    if reasons.len() > 0 {
        let n = reasons.len() - 1;
        assert forall|i: int| 0 <= i < n implies plans.drop_last()[i + 1]@
            == plans.drop_last()[i]@.push(#[trigger] reasons.drop_last()[i]) by {
            assert(plans[i + 1]@ == plans[i]@.push(reasons[i]));
        }
        reasons_accumulate_in_order(plans.drop_last(), reasons.drop_last());
        assert(plans[n + 1]@ == plans[n]@.push(reasons[n]));
    }
    assert(plans.last()@ =~= plans.first()@ + reasons);
}

/// A plan that began without reasons reports exactly the recorded ones, and is
/// `"applicable"` if and only if none was recorded.
pub proof fn new_plan_reports_what_was_recorded(
    plans: Seq<PlanApplicability>,
    reasons: Seq<Seq<char>>,
)
    requires
        is_history(plans, reasons),
        plans.first()@ == Seq::<Seq<char>>::empty(),
    ensures
        plans.last()@ == reasons,
        plans.last().status() == "applicable"@ <==> reasons.len() == 0,
        plans.last().status() == "blocked"@ <==> reasons.len() > 0,
{
    reasons_accumulate_in_order(plans, reasons);
    assert(plans.last()@ =~= reasons);
    status_tells_whether_blocked(reasons);
}

/// The two halves of a JSON pair agree: `plan_status` says `"applicable"` if
/// and only if `blocking_reasons` is the empty array.
pub proof fn json_pair_is_consistent(
    plan: PlanApplicability,
    pair: (serde_json::Value, serde_json::Value),
)
    requires
        crate::applicability::is_json_pair(pair, plan@),
    ensures
        crate::json::json_text(pair.0) == Some("applicable"@) <==> crate::json::json_texts(pair.1)
            == Some(Seq::<Seq<char>>::empty()),
        crate::json::json_text(pair.0) == Some("blocked"@) <==> crate::json::json_texts(pair.1)
            != Some(Seq::<Seq<char>>::empty()),
{
    status_tells_whether_blocked(plan@);
    if plan@.len() == 0 {
        assert(plan@ =~= Seq::<Seq<char>>::empty());
    }
}

/// A JSON pair loses nothing: plans that give the same pair have the same
/// reasons and the same status.
pub proof fn json_pair_determines_the_reasons(
    a: PlanApplicability,
    b: PlanApplicability,
    pair: (serde_json::Value, serde_json::Value),
)
    requires
        crate::applicability::is_json_pair(pair, a@),
        crate::applicability::is_json_pair(pair, b@),
    ensures
        a@ == b@,
        a.status() == b.status(),
{
}

/// A plan made by `new` lists no reason, is not blocked, reports
/// `"applicable"`, and gives a JSON pair of that status and the empty array.
pub proof fn new_plan_has_no_reason(
    plan: PlanApplicability,
    reasons: &[String],
    blocked: bool,
    status: &'static str,
    pair: (serde_json::Value, serde_json::Value),
)
    requires
        call_ensures(PlanApplicability::new, (), plan),
        call_ensures(PlanApplicability::blocking_reasons, (&plan,), reasons),
        call_ensures(PlanApplicability::is_blocked, (&plan,), blocked),
        call_ensures(PlanApplicability::status_str, (&plan,), status),
        call_ensures(PlanApplicability::to_json, (&plan,), pair),
    ensures
        reasons@.len() == 0,
        !blocked,
        status@ == "applicable"@,
        crate::json::json_text(pair.0) == Some("applicable"@),
        crate::json::json_texts(pair.1) == Some(Seq::<Seq<char>>::empty()),
{
}

/// A plan made by `default` lists no reason, is not blocked, reports
/// `"applicable"`, and gives a JSON pair of that status and the empty array.
pub proof fn default_plan_has_no_reason(
    plan: PlanApplicability,
    reasons: &[String],
    blocked: bool,
    status: &'static str,
    pair: (serde_json::Value, serde_json::Value),
)
    requires
        call_ensures(<PlanApplicability as Default>::default, (), plan),
        call_ensures(PlanApplicability::blocking_reasons, (&plan,), reasons),
        call_ensures(PlanApplicability::is_blocked, (&plan,), blocked),
        call_ensures(PlanApplicability::status_str, (&plan,), status),
        call_ensures(PlanApplicability::to_json, (&plan,), pair),
    ensures
        reasons@.len() == 0,
        !blocked,
        status@ == "applicable"@,
        crate::json::json_text(pair.0) == Some("applicable"@),
        crate::json::json_texts(pair.1) == Some(Seq::<Seq<char>>::empty()),
{
}

/// Every plan is blocked, and says `"blocked"`, if and only if it lists a
/// reason; it says `"applicable"` if and only if it lists none.
pub proof fn verdict_follows_the_listed_reasons(
    plan: PlanApplicability,
    reasons: &[String],
    blocked: bool,
    status: &'static str,
)
    requires
        call_ensures(PlanApplicability::blocking_reasons, (&plan,), reasons),
        call_ensures(PlanApplicability::is_blocked, (&plan,), blocked),
        call_ensures(PlanApplicability::status_str, (&plan,), status),
    ensures
        blocked <==> reasons@.len() > 0,
        status@ == "blocked"@ <==> reasons@.len() > 0,
        status@ == "applicable"@ <==> reasons@.len() == 0,
{
}

/// The first half of every plan's JSON pair is a JSON string, not an array,
/// and its text is what `status_str` reports.
pub proof fn json_status_is_the_reported_status(
    plan: PlanApplicability,
    status: &'static str,
    pair: (serde_json::Value, serde_json::Value),
)
    requires
        call_ensures(PlanApplicability::status_str, (&plan,), status),
        call_ensures(PlanApplicability::to_json, (&plan,), pair),
    ensures
        crate::json::json_text(pair.0) == Some(status@),
        crate::json::json_texts(pair.0) is None,
{
}

/// The second half of every plan's JSON pair is a JSON array of strings, with
/// as many items as `blocking_reasons` has reasons, and the text of each item
/// is, character for character, the text of the reason in the same place.
pub proof fn json_lists_the_blocking_reasons(
    plan: PlanApplicability,
    reasons: &[String],
    pair: (serde_json::Value, serde_json::Value),
)
    requires
        call_ensures(PlanApplicability::blocking_reasons, (&plan,), reasons),
        call_ensures(PlanApplicability::to_json, (&plan,), pair),
    ensures
        crate::json::json_text(pair.1) is None,
        crate::json::json_texts(pair.1) is Some,
        crate::json::json_texts(pair.1)->Some_0.len() == reasons@.len(),
        forall|i: int|
            0 <= i < reasons@.len() ==> #[trigger] crate::json::json_texts(pair.1)->Some_0[i]
                == reasons@[i]@,
        crate::json::json_texts(pair.1) == Some(plan@),
{
}

/// A call of `block` lengthens the list of reasons by one: the earlier reasons
/// keep their places and texts, and the last one is the text that the given
/// reason converts into.
pub proof fn block_adds_one_reason<R: Into<String>>(
    plan: &mut PlanApplicability,
    reason: R,
    reasons_before: &[String],
    reasons_after: &[String],
)
    requires
        call_ensures(PlanApplicability::block::<R>, (plan, reason), ()),
        call_ensures(PlanApplicability::blocking_reasons, (&*old(plan),), reasons_before),
        call_ensures(PlanApplicability::blocking_reasons, (&*final(plan),), reasons_after),
    ensures
        reasons_after@.len() == reasons_before@.len() + 1,
        forall|i: int|
            0 <= i < reasons_before@.len() ==> (#[trigger] reasons_after@[i])@
                == reasons_before@[i]@,
        exists|text: String|
            #[trigger] call_ensures(R::into, (reason,), text) && reasons_after@.last()@ == text@,
{
}

/// A call of `block` leaves the plan blocked, whatever it was before, in every
/// way in which a plan can say so.
pub proof fn block_leaves_the_plan_blocked<R: Into<String>>(
    plan: &mut PlanApplicability,
    reason: R,
    blocked: bool,
    status: &'static str,
    pair: (serde_json::Value, serde_json::Value),
)
    requires
        call_ensures(PlanApplicability::block::<R>, (plan, reason), ()),
        call_ensures(PlanApplicability::is_blocked, (&*final(plan),), blocked),
        call_ensures(PlanApplicability::status_str, (&*final(plan),), status),
        call_ensures(PlanApplicability::to_json, (&*final(plan),), pair),
    ensures
        blocked,
        status@ == "blocked"@,
        crate::json::json_text(pair.0) == Some("blocked"@),
{
}

/// A call of `block` changes the JSON array of reasons by one item added at
/// the end, a JSON string of the text that the given reason converts into.
pub proof fn block_adds_one_json_item<R: Into<String>>(
    plan: &mut PlanApplicability,
    reason: R,
    pair_before: (serde_json::Value, serde_json::Value),
    pair_after: (serde_json::Value, serde_json::Value),
)
    requires
        call_ensures(PlanApplicability::block::<R>, (plan, reason), ()),
        call_ensures(PlanApplicability::to_json, (&*old(plan),), pair_before),
        call_ensures(PlanApplicability::to_json, (&*final(plan),), pair_after),
    ensures
        crate::json::json_texts(pair_before.1) is Some,
        exists|text: String|
            #[trigger] call_ensures(R::into, (reason,), text) && crate::json::json_texts(
                pair_after.1,
            ) == Some(crate::json::json_texts(pair_before.1)->Some_0.push(text@)),
{
}

/// A clone lists the same reasons in the same order as the plan it was made
/// from, gives the same verdict, and gives a JSON pair that holds the same.
pub proof fn clone_reports_the_same(
    plan: PlanApplicability,
    copy: PlanApplicability,
    reasons: (&[String], &[String]),
    blocked: (bool, bool),
    status: (&'static str, &'static str),
    pairs: ((serde_json::Value, serde_json::Value), (serde_json::Value, serde_json::Value)),
)
    requires
        call_ensures(<PlanApplicability as Clone>::clone, (&plan,), copy),
        call_ensures(PlanApplicability::blocking_reasons, (&plan,), reasons.0),
        call_ensures(PlanApplicability::blocking_reasons, (&copy,), reasons.1),
        call_ensures(PlanApplicability::is_blocked, (&plan,), blocked.0),
        call_ensures(PlanApplicability::is_blocked, (&copy,), blocked.1),
        call_ensures(PlanApplicability::status_str, (&plan,), status.0),
        call_ensures(PlanApplicability::status_str, (&copy,), status.1),
        call_ensures(PlanApplicability::to_json, (&plan,), pairs.0),
        call_ensures(PlanApplicability::to_json, (&copy,), pairs.1),
    ensures
        reasons.0@.len() == reasons.1@.len(),
        forall|i: int|
            0 <= i < reasons.0@.len() ==> (#[trigger] reasons.0@[i])@ == reasons.1@[i]@,
        blocked.0 == blocked.1,
        status.0@ == status.1@,
        crate::json::json_text(pairs.0.0) == crate::json::json_text(pairs.1.0),
        crate::json::json_texts(pairs.0.1) == crate::json::json_texts(pairs.1.1),
{
}

/// The reasons after a run of calls of `block`, by the views of the plan
/// before and after the run.
proof fn lemma_run_of_blocks(
    states: Seq<PlanApplicability>,
    calls: Seq<&mut PlanApplicability>,
    given: Seq<&str>,
)
    requires
        calls.len() == given.len(),
        states.len() == given.len() + 1,
        forall|i: int|
            #![trigger given[i]]
            0 <= i < given.len() ==> {
                &&& call_ensures(PlanApplicability::block::<&str>, (calls[i], given[i]), ())
                &&& *calls[i] == states[i]
                &&& *final(calls[i]) == states[i + 1]
            },
    ensures
        states.last()@.len() == states.first()@.len() + given.len(),
        forall|i: int|
            0 <= i < given.len() ==> #[trigger] states.last()@[states.first()@.len() + i]
                == given[i]@,
        states.first()@.is_prefix_of(states.last()@),
    decreases given.len(),
{
    if given.len() > 0 {
        let n = given.len() - 1;
        let shorter = given.drop_last();
        assert forall|i: int| #![trigger shorter[i]] 0 <= i < shorter.len() implies {
            &&& call_ensures(
                PlanApplicability::block::<&str>,
                (calls.drop_last()[i], shorter[i]),
                (),
            )
            &&& *calls.drop_last()[i] == states.drop_last()[i]
            &&& *final(calls.drop_last()[i]) == states.drop_last()[i + 1]
        } by {
            assert(shorter[i] == given[i]);
        }
        lemma_run_of_blocks(states.drop_last(), calls.drop_last(), shorter);
        assert(call_ensures(PlanApplicability::block::<&str>, (calls[n], given[n]), ()));
        let start = states.first()@.len();
        assert(states.last()@ == states[n]@.push(given[n]@));
        assert forall|i: int| 0 <= i < given.len() implies #[trigger] states.last()@[start + i]
            == given[i]@ by {
            if i < n {
                assert(states[n]@[start + i] == shorter[i]@);
            }
        }
    }
}

/// A plan made by `new` and then blocked any number of times lists exactly the
/// given texts, each once for each call, in the order of the calls, and so
/// does its JSON array; it is applicable if and only if there was no call.
/// Here `calls[i]` is the plan as the call with `given[i]` borrowed it, which
/// led from `states[i]` to `states[i + 1]`.
pub proof fn plan_lists_what_it_was_blocked_with(
    states: Seq<PlanApplicability>,
    calls: Seq<&mut PlanApplicability>,
    given: Seq<&str>,
    reasons: &[String],
    status: &'static str,
    pair: (serde_json::Value, serde_json::Value),
)
    requires
        calls.len() == given.len(),
        states.len() == given.len() + 1,
        call_ensures(PlanApplicability::new, (), states.first()),
        forall|i: int|
            #![trigger given[i]]
            0 <= i < given.len() ==> {
                &&& call_ensures(PlanApplicability::block::<&str>, (calls[i], given[i]), ())
                &&& *calls[i] == states[i]
                &&& *final(calls[i]) == states[i + 1]
            },
        call_ensures(PlanApplicability::blocking_reasons, (&states.last(),), reasons),
        call_ensures(PlanApplicability::status_str, (&states.last(),), status),
        call_ensures(PlanApplicability::to_json, (&states.last(),), pair),
    ensures
        reasons@.len() == given.len(),
        forall|i: int| 0 <= i < given.len() ==> (#[trigger] reasons@[i])@ == given[i]@,
        status@ == "applicable"@ <==> given.len() == 0,
        status@ == "blocked"@ <==> given.len() > 0,
        crate::json::json_text(pair.0) == Some(status@),
        crate::json::json_texts(pair.1) is Some,
        crate::json::json_texts(pair.1)->Some_0.len() == given.len(),
        forall|i: int|
            0 <= i < given.len() ==> #[trigger] crate::json::json_texts(pair.1)->Some_0[i]
                == given[i]@,
{
    lemma_run_of_blocks(states, calls, given);
    let plan = states.last();
    assert forall|i: int| 0 <= i < given.len() implies #[trigger] plan@[i] == given[i]@ by {
        assert(plan@[states.first()@.len() + i] == given[i]@);
    }
}

} // verus!
