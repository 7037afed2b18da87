use palm_api::{classify, classify_status, ApiError, ChatRes, MessageRes, Operation};

fn chat_res(texts: &[&str]) -> ChatRes {
    ChatRes {
        messages: texts
            .iter()
            .map(|t| MessageRes { author: "0".to_string(), content: t.to_string() })
            .collect(),
        filters: None,
        candidates: None,
    }
}

#[test]
fn success_hands_back_the_decoded_body() {
    let model = "chat-bison-001".to_string();
    let res = classify(Operation::Chat, 200, &model, "{}", |_| Some(chat_res(&["a", "b", "c"])))
        .ok()
        .expect("decoded");
    let contents: Vec<&str> = res.messages.iter().map(|m| m.content.as_str()).collect();
    assert_eq!(contents, vec!["a", "b", "c"]);
}

#[test]
fn undecodable_success_is_malformed() {
    let model = "chat-bison-001".to_string();
    let r = classify(Operation::Chat, 200, &model, "not json", |_| None::<ChatRes>);
    assert_eq!(r.err(), Some(ApiError::MalformedResponse));
}

#[test]
fn auth_failures_ignore_the_body() {
    let model = "text-bison-001".to_string();
    for op in [Operation::ListModels, Operation::GetModel, Operation::Chat, Operation::GenerateText] {
        for status in [401u16, 403] {
            let r = classify(op, status, &model, "{\"messages\":[]}", |_| Some(chat_res(&["x"])));
            assert_eq!(r.err(), Some(ApiError::AuthError));
        }
    }
}

#[test]
fn not_found_carries_the_model_name() {
    let model = "text-bison-001".to_string();
    for op in [
        Operation::GetModel,
        Operation::CountMessageTokens,
        Operation::GenerateEmbeddings,
        Operation::Chat,
        Operation::GenerateText,
    ] {
        let r = classify(op, 404, &model, "whatever", |_| Some(chat_res(&[])));
        assert_eq!(r.err(), Some(ApiError::NotFound("text-bison-001".to_string())));
    }
}

#[test]
fn not_found_on_listing_is_unexpected() {
    let model = String::new();
    assert_eq!(classify_status(Operation::ListModels, 404, &model), Err(ApiError::Unexpected(404)));
}

#[test]
fn bad_request_details_by_operation() {
    let model = "chat-bison-001".to_string();
    assert_eq!(
        classify_status(Operation::Chat, 400, &model),
        Err(ApiError::BadRequest("Bad Request".to_string()))
    );
    assert_eq!(
        classify_status(Operation::GenerateText, 400, &model),
        Err(ApiError::BadRequest("Bad Request".to_string()))
    );
    assert_eq!(
        classify_status(Operation::CountMessageTokens, 400, &model),
        Err(ApiError::BadRequest("Message not found".to_string()))
    );
    assert_eq!(
        classify_status(Operation::GenerateEmbeddings, 400, &model),
        Err(ApiError::BadRequest("Message not found".to_string()))
    );
    assert_eq!(classify_status(Operation::GetModel, 400, &model), Err(ApiError::Unexpected(400)));
}

#[test]
fn other_statuses_are_unexpected() {
    let model = "chat-bison-001".to_string();
    assert_eq!(classify_status(Operation::Chat, 500, &model), Err(ApiError::Unexpected(500)));
    assert_eq!(classify_status(Operation::GetModel, 429, &model), Err(ApiError::Unexpected(429)));
    assert_eq!(classify_status(Operation::ListModels, 201, &model), Err(ApiError::Unexpected(201)));
    assert_eq!(classify_status(Operation::ListModels, 200, &model), Ok(()));
}
