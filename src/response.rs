use vstd::prelude::*;

use crate::request::SafetySetting;

verus! {

/// Content filtering metadata associated with processing a single request.
pub struct ContentFilter {
    /// The reason content was blocked during request processing.
    pub reason: String,
}

/// A message of a chat response.
pub struct MessageRes {
    /// The author of the message, any alphanumeric string.
    pub author: String,
    /// The text content of the message.
    pub content: String,
}

/// The response to a chat request.
pub struct ChatRes {
    /// The conversation history used by the model, in order.
    pub messages: Vec<MessageRes>,
    /// Content filtering metadata for the prompt and response text.
    pub filters: Option<Vec<ContentFilter>>,
    /// Candidate response messages from the model.
    pub candidates: Option<Vec<MessageRes>>,
}

/// The safety rating of a piece of content for one harm category.
pub struct SafetyRating {
    /// The category of this rating.
    pub category: String,
    /// The probability of harm for this content.
    pub probability: String,
}

/// Output text returned from a model.
pub struct TextCompletion {
    /// The generated text.
    pub output: String,
    /// Ratings for the safety of the output, at most one per category.
    pub safety_ratings: Vec<SafetyRating>,
}

/// Safety feedback for a whole request whose content was blocked.
pub struct SafetyFeedback {
    /// The safety rating evaluated from content.
    pub rating: SafetyRating,
    /// The safety setting applied to the request.
    pub setting: SafetySetting,
}

/// The response to a text request.
pub struct TextRes {
    /// Candidate completions from the model.
    pub candidates: Option<Vec<TextCompletion>>,
    /// Content filtering metadata for the prompt and response text.
    pub filters: Option<Vec<ContentFilter>>,
    /// Safety feedback related to content filtering.
    pub safety_feedback: Option<Vec<SafetyFeedback>>,
}

} // verus!
