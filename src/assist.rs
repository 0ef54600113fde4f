//! Local text helpers of the assistant: pass-through processing and an
//! engine that offers no suggestions of its own.
use vstd::prelude::*;

verus! {

pub struct NLPProcessor;

impl NLPProcessor {
    pub fn new() -> (r: NLPProcessor) {
        NLPProcessor
    }

    /// The text as given.
    pub fn process(&self, text: &str) -> (r: Result<String, ()>)
        ensures
            r matches Ok(s) && s@ == text@,
    {
        Ok(text.to_string())
    }
}

pub struct SuggestionEngine;

impl SuggestionEngine {
    pub fn new() -> (r: SuggestionEngine) {
        SuggestionEngine
    }

    /// Suggestions come from the augmentation service; locally there are none.
    pub fn get_suggestions(&self, input: &str) -> (r: Vec<String>)
        ensures
            r@.len() == 0,
    {
        Vec::new()
    }
}

} // verus!
