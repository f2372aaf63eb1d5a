use std::borrow::Cow;

use plan_status::PlanApplicability;
use serde_json::Value;

fn reasons_of(applicability: &PlanApplicability) -> Vec<&str> {
    applicability
        .blocking_reasons()
        .iter()
        .map(|reason| reason.as_str())
        .collect()
}

fn text(text: &str) -> Value {
    Value::String(text.to_string())
}

#[test]
fn no_blocks_is_applicable() {
    let applicability = PlanApplicability::new();
    assert!(!applicability.is_blocked());
    assert_eq!(applicability.status_str(), "applicable");
    assert!(applicability.blocking_reasons().is_empty());
}

#[test]
fn any_block_is_blocked_and_named() {
    let mut applicability = PlanApplicability::new();
    applicability.block("C1 plans outside the board outline");
    assert!(applicability.is_blocked());
    assert_eq!(applicability.status_str(), "blocked");
    assert_eq!(
        applicability.blocking_reasons(),
        &["C1 plans outside the board outline".to_string()]
    );
}

#[test]
fn default_is_a_new_plan() {
    let applicability = PlanApplicability::default();
    assert!(!applicability.is_blocked());
    assert_eq!(applicability.status_str(), "applicable");
    assert!(applicability.blocking_reasons().is_empty());
}

#[test]
fn owned_and_converted_reasons_are_named() {
    let mut applicability = PlanApplicability::new();
    applicability.block(format!("{} overlaps {}", "C1", "U2"));
    let shared = String::from("score does not improve");
    applicability.block(&shared);
    applicability.block('!');
    assert_eq!(
        reasons_of(&applicability),
        vec!["C1 overlaps U2", "score does not improve", "!"]
    );
}

#[test]
fn boxed_cow_and_mutable_reasons_are_named() {
    let mut applicability = PlanApplicability::new();
    applicability.block(String::from("boxed").into_boxed_str());
    applicability.block(Cow::Borrowed("borrowed"));
    applicability.block(Cow::<str>::Owned(String::from("owned")));
    let mut slice = String::from("mutable");
    applicability.block(slice.as_mut_str());
    assert_eq!(
        reasons_of(&applicability),
        vec!["boxed", "borrowed", "owned", "mutable"]
    );
    assert_eq!(slice, "mutable");
}

#[test]
fn reasons_accumulate_in_order_with_repeats() {
    let mut applicability = PlanApplicability::new();
    for reason in ["b", "a", "b", "c"] {
        applicability.block(reason);
        assert!(applicability.is_blocked());
        assert_eq!(applicability.status_str(), "blocked");
    }
    assert_eq!(reasons_of(&applicability), vec!["b", "a", "b", "c"]);
}

#[test]
fn an_empty_reason_still_blocks() {
    let mut applicability = PlanApplicability::new();
    applicability.block("");
    assert!(applicability.is_blocked());
    assert_eq!(applicability.status_str(), "blocked");
    assert_eq!(reasons_of(&applicability), vec![""]);
}

#[test]
fn a_clone_keeps_the_reasons_and_is_independent() {
    let mut original = PlanApplicability::new();
    original.block("first");
    let mut copy = original.clone();
    assert_eq!(copy.blocking_reasons(), original.blocking_reasons());
    copy.block("second");
    assert_eq!(reasons_of(&original), vec!["first"]);
    assert_eq!(reasons_of(&copy), vec!["first", "second"]);
}

#[test]
fn debug_shows_the_reasons() {
    let mut applicability = PlanApplicability::new();
    applicability.block("x");
    assert_eq!(
        format!("{:?}", applicability),
        "PlanApplicability { blocking_reasons: [\"x\"] }"
    );
}

#[test]
fn json_of_an_applicable_plan() {
    let (plan_status, blocking_reasons) = PlanApplicability::new().to_json();
    assert_eq!(plan_status, text("applicable"));
    assert_eq!(blocking_reasons, Value::Array(vec![]));
}

#[test]
fn json_of_a_blocked_plan() {
    let mut applicability = PlanApplicability::new();
    applicability.block("C1 plans outside the board outline");
    applicability.block("quote \" and \u{b5}m");
    let (plan_status, blocking_reasons) = applicability.to_json();
    assert_eq!(plan_status, text("blocked"));
    assert_eq!(
        blocking_reasons,
        Value::Array(vec![
            text("C1 plans outside the board outline"),
            text("quote \" and \u{b5}m"),
        ])
    );
    assert_eq!(plan_status.to_string(), "\"blocked\"");
    assert_eq!(
        blocking_reasons.to_string(),
        "[\"C1 plans outside the board outline\",\"quote \\\" and \u{b5}m\"]"
    );
}

#[test]
fn json_halves_agree_after_every_block() {
    let mut applicability = PlanApplicability::new();
    for count in 0..4 {
        let (plan_status, blocking_reasons) = applicability.to_json();
        let listed = blocking_reasons.as_array().unwrap().len();
        assert_eq!(listed, count);
        assert_eq!(plan_status.as_str() == Some("applicable"), listed == 0);
        assert_eq!(plan_status.as_str(), Some(applicability.status_str()));
        applicability.block(format!("reason {count}"));
    }
}

#[test]
fn json_lists_exactly_the_blocking_reasons() {
    let mut applicability = PlanApplicability::new();
    applicability.block("a");
    applicability.block(String::from("b"));
    let (_, blocking_reasons) = applicability.to_json();
    let listed: Vec<&str> = blocking_reasons
        .as_array()
        .unwrap()
        .iter()
        .map(|item| item.as_str().unwrap())
        .collect();
    assert_eq!(listed, reasons_of(&applicability));
}
