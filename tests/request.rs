use palm_api::{new_chat_body, new_message_prompt, new_text_body, TokenBody};

#[test]
fn new_bodies_leave_parameters_unset() {
    let chat = new_chat_body();
    assert_eq!(chat.temperature, None);
    assert_eq!(chat.top_p, None);
    assert_eq!(chat.top_k, None);
    assert_eq!(chat.candidate_count, 1);
    assert_eq!(chat.prompt.context, "");
    let text = new_text_body();
    assert_eq!(text.temperature, None);
    assert_eq!(text.top_p, None);
    assert_eq!(text.top_k, None);
    assert_eq!(text.candidate_count, 1);
    assert_eq!(text.max_output_tokens, 64);
    assert_eq!(text.prompt.text, "");
    assert!(text.safety_settings.is_empty() && text.stop_sequences.is_empty());
    let prompt = new_message_prompt();
    assert!(prompt.examples.is_empty() && prompt.messages.is_empty());
}

#[test]
fn setters_overwrite_and_appends_keep_order() {
    let mut chat = new_chat_body();
    chat.set_context("first".to_string());
    chat.set_context("second".to_string());
    chat.set_top_k(-1);
    chat.set_candidate_count(8);
    assert_eq!(chat.prompt.context, "second");
    assert_eq!(chat.top_k, Some(-1));
    assert_eq!(chat.candidate_count, 8);

    let mut text = new_text_body();
    for s in ["one", "two", "three", "four", "five", "six"] {
        text.append_stop_sequence(s.to_string());
    }
    text.set_top_p(0.3f64.to_bits());
    assert_eq!(text.stop_sequences.len(), 6);
    assert_eq!(text.stop_sequences[5], "six");
    assert_eq!(text.top_p, Some(0.3f64.to_bits()));
}

#[test]
fn token_body_holds_one_message_per_text() {
    let body = TokenBody::from_messages(vec![
        "How many tokens?".to_string(),
        "For this whole conversation?".to_string(),
    ]);
    assert_eq!(body.prompt.messages.len(), 2);
    assert_eq!(body.prompt.messages[0].content, "How many tokens?");
    assert_eq!(body.prompt.messages[1].content, "For this whole conversation?");
    assert!(TokenBody::from_messages(Vec::new()).prompt.messages.is_empty());
}
