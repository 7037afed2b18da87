use vstd::prelude::*;

verus! {

/// One message of a conversation.
pub struct Message {
    /// The text content of the message.
    pub content: String,
}

/// An input and the output that the model should give for it.
pub struct Example {
    pub input: Message,
    pub output: Message,
}

/// The prompt of a chat request.
pub struct MessagePrompt {
    /// Text given to the model first, to ground the response.
    pub context: String,
    /// Example exchanges, in the order they were added.
    pub examples: Vec<Example>,
    /// The conversation so far, in order.
    pub messages: Vec<Message>,
}

/// A chat request being assembled. A sampling parameter that is `None`
/// takes the model's default when the request is resolved.
pub struct ChatBody {
    pub prompt: MessagePrompt,
    /// Temperature, as the bits of a binary64 value.
    pub temperature: Option<u64>,
    /// Number of candidate responses to return.
    pub candidate_count: u32,
    /// Nucleus-sampling probability, as the bits of a binary64 value.
    pub top_p: Option<u64>,
    /// Number of most probable tokens considered by top-k sampling.
    pub top_k: Option<i32>,
}

/// The prompt of a text request.
pub struct TextPrompt {
    pub text: String,
}

/// A safety setting: the probability threshold at which content of a harm
/// category is blocked.
pub struct SafetySetting {
    /// The harm category, such as `HARM_CATEGORY_TOXICITY`.
    pub category: String,
    /// The threshold, such as `BLOCK_LOW_AND_ABOVE`.
    pub threshold: String,
}

/// A text request being assembled. A sampling parameter that is `None`
/// takes the model's default when the request is resolved.
pub struct TextBody {
    pub prompt: TextPrompt,
    /// Safety settings, in the order they were added; repeats are kept.
    pub safety_settings: Vec<SafetySetting>,
    /// Sequences at which generation stops, in the order they were added.
    pub stop_sequences: Vec<String>,
    /// Temperature, as the bits of a binary64 value.
    pub temperature: Option<u64>,
    /// Number of candidate responses to return.
    pub candidate_count: u32,
    /// Maximum number of tokens in a candidate.
    pub max_output_tokens: u32,
    /// Nucleus-sampling probability, as the bits of a binary64 value.
    pub top_p: Option<u64>,
    /// Number of most probable tokens considered by top-k sampling.
    pub top_k: Option<i32>,
}

/// The candidate count of a new request.
pub const DEFAULT_CANDIDATE_COUNT: u32 = 1;

/// The output token limit of a new text request.
pub const DEFAULT_MAX_OUTPUT_TOKENS: u32 = 64;

/// An empty chat prompt: no context, no examples, no messages.
pub fn new_message_prompt() -> (p: MessagePrompt)
    ensures
        p.context@ == Seq::<char>::empty(),
        p.examples@ == Seq::<Example>::empty(),
        p.messages@ == Seq::<Message>::empty(),
{
    MessagePrompt { context: String::new(), examples: Vec::new(), messages: Vec::new() }
}

/// A new chat request: an empty prompt, one candidate, and every sampling
/// parameter left to the model.
pub fn new_chat_body() -> (b: ChatBody)
    ensures
        b.prompt.context@ == Seq::<char>::empty(),
        b.prompt.examples@ == Seq::<Example>::empty(),
        b.prompt.messages@ == Seq::<Message>::empty(),
        b.temperature is None,
        b.candidate_count == DEFAULT_CANDIDATE_COUNT,
        b.top_p is None,
        b.top_k is None,
{
    ChatBody {
        prompt: new_message_prompt(),
        temperature: None,
        candidate_count: DEFAULT_CANDIDATE_COUNT,
        top_p: None,
        top_k: None,
    }
}

impl ChatBody {
    /// The sampling parameters and the candidate count are those of `other`.
    pub open spec fn same_parameters(&self, other: &ChatBody) -> bool {
        &&& self.temperature == other.temperature
        &&& self.candidate_count == other.candidate_count
        &&& self.top_p == other.top_p
        &&& self.top_k == other.top_k
    }

    /// Appends an example exchange after the existing ones.
    pub fn append_example(&mut self, input: String, output: String)
        ensures
            final(self).prompt.examples@ == old(self).prompt.examples@.push(
                (Example { input: Message { content: input }, output: Message { content: output } }),
            ),
            final(self).prompt.messages == old(self).prompt.messages,
            final(self).prompt.context == old(self).prompt.context,
            final(self).same_parameters(old(self)),
    {
        let example = Example {
            input: Message { content: input },
            output: Message { content: output },
        };
        self.prompt.examples.push(example);
    }

    /// Appends a message after the existing ones.
    pub fn append_message(&mut self, content: String)
        ensures
            final(self).prompt.messages@ == old(self).prompt.messages@.push(
                (Message { content: content }),
            ),
            final(self).prompt.examples == old(self).prompt.examples,
            final(self).prompt.context == old(self).prompt.context,
            final(self).same_parameters(old(self)),
    {
        self.prompt.messages.push(Message { content: content });
    }

    /// Replaces the context.
    pub fn set_context(&mut self, context: String)
        ensures
            *final(self) == (ChatBody {
                prompt: MessagePrompt { context: context, ..old(self).prompt },
                ..*old(self)
            }),
    {
        self.prompt.context = context;
    }

    /// Sets the temperature (the bits of a binary64 value).
    pub fn set_temperature(&mut self, temperature: u64)
        ensures
            *final(self) == (ChatBody { temperature: Some(temperature), ..*old(self) }),
    {
        self.temperature = Some(temperature);
    }

    /// Sets the number of candidate responses.
    pub fn set_candidate_count(&mut self, candidate_count: u32)
        ensures
            *final(self) == (ChatBody { candidate_count: candidate_count, ..*old(self) }),
    {
        self.candidate_count = candidate_count;
    }

    /// Sets the nucleus-sampling probability (the bits of a binary64 value).
    pub fn set_top_p(&mut self, top_p: u64)
        ensures
            *final(self) == (ChatBody { top_p: Some(top_p), ..*old(self) }),
    {
        self.top_p = Some(top_p);
    }

    /// Sets the number of tokens considered by top-k sampling.
    pub fn set_top_k(&mut self, top_k: i32)
        ensures
            *final(self) == (ChatBody { top_k: Some(top_k), ..*old(self) }),
    {
        self.top_k = Some(top_k);
    }
}

/// A new text request: an empty prompt, no safety settings, no stop
/// sequences, one candidate, at most 64 output tokens, and every sampling
/// parameter left to the model.
pub fn new_text_body() -> (b: TextBody)
    ensures
        b.prompt.text@ == Seq::<char>::empty(),
        b.safety_settings@ == Seq::<SafetySetting>::empty(),
        b.stop_sequences@ == Seq::<String>::empty(),
        b.temperature is None,
        b.candidate_count == DEFAULT_CANDIDATE_COUNT,
        b.max_output_tokens == DEFAULT_MAX_OUTPUT_TOKENS,
        b.top_p is None,
        b.top_k is None,
{
    TextBody {
        prompt: TextPrompt { text: String::new() },
        safety_settings: Vec::new(),
        stop_sequences: Vec::new(),
        temperature: None,
        candidate_count: DEFAULT_CANDIDATE_COUNT,
        max_output_tokens: DEFAULT_MAX_OUTPUT_TOKENS,
        top_p: None,
        top_k: None,
    }
}

impl TextBody {
    /// The numeric parameters are those of `other`.
    pub open spec fn same_parameters(&self, other: &TextBody) -> bool {
        &&& self.temperature == other.temperature
        &&& self.candidate_count == other.candidate_count
        &&& self.max_output_tokens == other.max_output_tokens
        &&& self.top_p == other.top_p
        &&& self.top_k == other.top_k
    }

    /// Replaces the prompt text.
    pub fn set_text_prompt(&mut self, text: String)
        ensures
            *final(self) == (TextBody { prompt: TextPrompt { text: text }, ..*old(self) }),
    {
        self.prompt.text = text;
    }

    /// Appends a safety setting after the existing ones.
    pub fn append_safety_setting(&mut self, category: String, threshold: String)
        ensures
            final(self).safety_settings@ == old(self).safety_settings@.push(
                (SafetySetting { category: category, threshold: threshold }),
            ),
            final(self).prompt == old(self).prompt,
            final(self).stop_sequences == old(self).stop_sequences,
            final(self).same_parameters(old(self)),
    {
        self.safety_settings.push(SafetySetting { category: category, threshold: threshold });
    }

    /// Appends a stop sequence after the existing ones.
    pub fn append_stop_sequence(&mut self, stop_sequence: String)
        ensures
            final(self).stop_sequences@ == old(self).stop_sequences@.push(stop_sequence),
            final(self).prompt == old(self).prompt,
            final(self).safety_settings == old(self).safety_settings,
            final(self).same_parameters(old(self)),
    {
        self.stop_sequences.push(stop_sequence);
    }

    /// Sets the temperature (the bits of a binary64 value).
    pub fn set_temperature(&mut self, temperature: u64)
        ensures
            *final(self) == (TextBody { temperature: Some(temperature), ..*old(self) }),
    {
        self.temperature = Some(temperature);
    }

    /// Sets the number of candidate responses.
    pub fn set_candidate_count(&mut self, candidate_count: u32)
        ensures
            *final(self) == (TextBody { candidate_count: candidate_count, ..*old(self) }),
    {
        self.candidate_count = candidate_count;
    }

    /// Sets the maximum number of tokens in a candidate.
    pub fn set_max_output_tokens(&mut self, max_output_tokens: u32)
        ensures
            *final(self) == (TextBody { max_output_tokens: max_output_tokens, ..*old(self) }),
    {
        self.max_output_tokens = max_output_tokens;
    }

    /// Sets the nucleus-sampling probability (the bits of a binary64 value).
    pub fn set_top_p(&mut self, top_p: u64)
        ensures
            *final(self) == (TextBody { top_p: Some(top_p), ..*old(self) }),
    {
        self.top_p = Some(top_p);
    }

    /// Sets the number of tokens considered by top-k sampling.
    pub fn set_top_k(&mut self, top_k: i32)
        ensures
            *final(self) == (TextBody { top_k: Some(top_k), ..*old(self) }),
    {
        self.top_k = Some(top_k);
    }
}

/// The messages of a token-counting request.
pub struct Messages {
    pub messages: Vec<Message>,
}

/// A token-counting request.
pub struct TokenBody {
    pub prompt: Messages,
}

impl TokenBody {
    /// A token-counting request for the given texts, one message each, in order.
    pub fn from_messages(message_list: Vec<String>) -> (b: TokenBody)
        ensures
            b.prompt.messages@.len() == message_list@.len(),
            forall|i: int|
                0 <= i < message_list@.len() ==> #[trigger] b.prompt.messages@[i].content
                    == message_list@[i],
    {
        let mut messages: Vec<Message> = Vec::new();
        let mut i: usize = 0;
        while i < message_list.len()
            invariant
                i <= message_list@.len(),
                messages@.len() == i,
                forall|j: int| 0 <= j < i ==> #[trigger] messages@[j].content == message_list@[j],
            decreases message_list@.len() - i,
        {
            messages.push(Message { content: message_list[i].clone() });
            i = i + 1;
        }
        TokenBody { prompt: Messages { messages: messages } }
    }
}

} // verus!
