use vstd::prelude::*;

verus! {

/// Information about a model served by the API.
pub struct Model {
    /// The resource name of the model, `models/{model}`.
    pub name: String,
    /// The major version of the model.
    pub version: String,
    /// The human-readable name of the model.
    pub display_name: String,
    /// A short description of the model.
    pub description: String,
    /// Maximum number of input tokens allowed for this model.
    pub input_token_limit: u32,
    /// Maximum number of output tokens available for this model.
    pub output_token_limit: u32,
    /// The model's supported generation methods, such as `generateMessage`.
    pub supported_generation_methods: Vec<String>,
    /// Default temperature, as the bits of a binary64 value in [0, 1].
    pub temperature: Option<u64>,
    /// Default nucleus-sampling probability, as the bits of a binary64 value in [0, 1].
    pub top_p: Option<u64>,
    /// Default number of most probable tokens considered by top-k sampling.
    pub top_k: Option<i32>,
}

} // verus!
