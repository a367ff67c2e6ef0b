//! Relevance decisions about single files.

use vstd::prelude::*;

verus! {

/// The status of a relevance decision
#[derive(Debug, Clone, PartialEq, Eq, Structural)]
pub enum RelevanceStatus {
    /// The file is relevant to the problem
    Relevant,
    /// The file is not relevant to the problem
    NotRelevant,
    /// There was an error parsing the LLM response
    ParseError,
}

/// The decision about whether a file is relevant to a problem
#[derive(Debug, Clone)]
pub struct RelevanceDecision {
    /// The full message from the LLM
    pub message: String,
    /// The status of the decision
    pub status: RelevanceStatus,
    /// A summary of why the file is relevant (only if status is Relevant)
    pub summary: Option<String>,
}

impl RelevanceDecision {
    /// Create a new relevance decision for a relevant file
    pub fn relevant(message: String, summary: String) -> (r: Self)
        ensures
            r.message == message,
            r.status == RelevanceStatus::Relevant,
            r.summary == Some(summary),
    {
        Self { message, status: RelevanceStatus::Relevant, summary: Some(summary) }
    }

    /// Create a new relevance decision for an irrelevant file
    pub fn not_relevant(message: String) -> (r: Self)
        ensures
            r.message == message,
            r.status == RelevanceStatus::NotRelevant,
            r.summary is None,
    {
        Self { message, status: RelevanceStatus::NotRelevant, summary: None }
    }

    /// Create a new relevance decision for a parsing error
    pub fn parse_error(message: String) -> (r: Self)
        ensures
            r.message == message,
            r.status == RelevanceStatus::ParseError,
            r.summary is None,
    {
        Self { message, status: RelevanceStatus::ParseError, summary: None }
    }

    /// Check if the file is relevant
    pub fn is_relevant(&self) -> (r: bool)
        ensures
            r == (self.status == RelevanceStatus::Relevant),
    {
        self.status == RelevanceStatus::Relevant
    }
}

} // verus!
