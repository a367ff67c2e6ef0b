use engine_builder::models::relevance::{RelevanceDecision, RelevanceStatus};

#[test]
fn test_relevance_decision_relevant() {
    let message = "The file contains core functionality".to_string();
    let summary = "This file defines the main data structures".to_string();

    let decision = RelevanceDecision::relevant(message.clone(), summary.clone());

    assert_eq!(decision.message, message);
    assert_eq!(decision.status, RelevanceStatus::Relevant);
    assert_eq!(decision.summary, Some(summary.clone()));
    assert!(decision.is_relevant());
}

#[test]
fn test_relevance_decision_not_relevant() {
    let message = "The file is a test utility and not relevant".to_string();

    let decision = RelevanceDecision::not_relevant(message.clone());

    assert_eq!(decision.message, message);
    assert_eq!(decision.status, RelevanceStatus::NotRelevant);
    assert_eq!(decision.summary, None);
    assert!(!decision.is_relevant());
}

#[test]
fn test_relevance_decision_parse_error() {
    let message = "Could not parse the LLM response".to_string();

    let decision = RelevanceDecision::parse_error(message.clone());

    assert_eq!(decision.message, message);
    assert_eq!(decision.status, RelevanceStatus::ParseError);
    assert_eq!(decision.summary, None);
    assert!(!decision.is_relevant());
}
