use palm_api::{create_client, create_client_with_endpoint, Operation, ENDPOINT};

#[test]
fn client_uses_the_service_endpoint() {
    let client = create_client("k3y".to_string());
    assert_eq!(client.endpoint(), ENDPOINT);
    assert_eq!(client.api_key(), "k3y");
    assert_eq!(
        client.url(Operation::ListModels, ""),
        "https://generativelanguage.googleapis.com/v1beta2/models?key=k3y"
    );
}

#[test]
fn urls_by_operation() {
    let client = create_client_with_endpoint("abc".to_string(), "http://localhost:8080".to_string());
    assert_eq!(
        client.url(Operation::GetModel, "text-bison-001"),
        "http://localhost:8080/v1beta2/models/text-bison-001?key=abc"
    );
    assert_eq!(
        client.url(Operation::CountMessageTokens, "chat-bison-001"),
        "http://localhost:8080/v1beta2/models/chat-bison-001:countMessageTokens?key=abc"
    );
    assert_eq!(
        client.url(Operation::GenerateEmbeddings, "embedding-gecko-001"),
        "http://localhost:8080/v1beta2/models/embedding-gecko-001:embedText?key=abc"
    );
    assert_eq!(
        client.url(Operation::Chat, "chat-bison-001"),
        "http://localhost:8080/v1beta2/models/chat-bison-001:generateMessage?key=abc"
    );
    assert_eq!(
        client.url(Operation::GenerateText, "text-bison-001"),
        "http://localhost:8080/v1beta2/models/text-bison-001:generateText?key=abc"
    );
}
