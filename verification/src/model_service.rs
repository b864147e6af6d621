//! Complexity classifier: scores a request into a generation-effort tier.

use vstd::prelude::*;
use vstd::string::*;
use crate::models::ChatRequest;

verus! {

/// Messages shorter than this many characters are `Low`.
pub const MEDIUM_THRESHOLD: usize = 200;

/// Messages of at least this many characters are `High`.
pub const HIGH_THRESHOLD: usize = 800;

/// Generation-effort tier of a request, in ascending order of effort.
#[derive(Debug, Clone, Copy, PartialEq, Eq, Structural)]
pub enum Complexity {
    Low,
    Medium,
    High,
}

/// The tier of a message of `length` characters.
pub open spec fn complexity_of_length(length: nat) -> Complexity {
    if length < MEDIUM_THRESHOLD {
        Complexity::Low
    } else if length < HIGH_THRESHOLD {
        Complexity::Medium
    } else {
        Complexity::High
    }
}

/// Classifier of requests by message length.
#[derive(Clone, Copy, Debug)]
pub struct ModelService;

impl ModelService {
    pub fn new() -> (service: ModelService) {
        ModelService
    }

    /// Classifies a request by the length of its message in characters.
    pub fn analyze_complexity(&self, request: &ChatRequest) -> (tier: Complexity)
        ensures
            tier == complexity_of_length(request.message@.len()),
    {
        let length: usize = request.message.as_str().unicode_len();
        if length < MEDIUM_THRESHOLD {
            Complexity::Low
        } else if length < HIGH_THRESHOLD {
            Complexity::Medium
        } else {
            Complexity::High
        }
    }
}

} // verus!
