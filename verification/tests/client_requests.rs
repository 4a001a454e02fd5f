use async_openai::{
    BackoffPolicy, Body, Client, Method, OpenAIError, API_BASE, ORGANIZATION_HEADER,
};

#[test]
fn new_uses_default_base_and_given_key() {
    let client = Client::new(Some("sk-test".to_string()));
    assert_eq!(client.api_base(), "https://api.openai.com/v1");
    assert_eq!(client.api_base(), API_BASE);
    assert_eq!(client.api_key(), "sk-test");
    assert_eq!(client.org_id(), "");
}

#[test]
fn new_without_environment_key_has_empty_key() {
    let client = Client::new(None);
    assert_eq!(client.api_key(), "");
}

#[test]
fn builders_replace_one_field_each() {
    let client = Client::new(Some("a".to_string()))
        .with_api_key("b")
        .with_org_id("org-1")
        .with_api_base("http://localhost:8080/v1");
    assert_eq!(client.api_key(), "b");
    assert_eq!(client.org_id(), "org-1");
    assert_eq!(client.api_base(), "http://localhost:8080/v1");
}

#[test]
fn with_backoff_keeps_the_policy() {
    let policy = BackoffPolicy::new(250, 2000, 1234, None).unwrap();
    let client = Client::new(None).with_backoff(policy);
    assert_eq!(client.backoff_policy().initial_interval_millis(), 250);
    assert_eq!(client.backoff_policy().multiplier_permille(), 2000);
    assert_eq!(client.backoff_policy().max_interval_millis(), 1234);
    assert_eq!(client.backoff_policy().max_elapsed_millis(), None);
    assert_eq!(client.api_base(), API_BASE);
}

#[test]
fn new_client_has_the_standard_policy() {
    let client = Client::new(None);
    assert_eq!(client.backoff_policy().initial_interval_millis(), 500);
    assert_eq!(client.backoff_policy().multiplier_permille(), 1500);
    assert_eq!(client.backoff_policy().max_interval_millis(), 60_000);
    assert_eq!(client.backoff_policy().max_elapsed_millis(), Some(900_000));
}

#[test]
fn headers_are_empty_without_organization() {
    let client = Client::new(None);
    let headers = client.headers().unwrap();
    assert!(headers.is_empty());
}

#[test]
fn headers_carry_the_organization() {
    let client = Client::new(None).with_org_id("org-42");
    let headers = client.headers().unwrap();
    assert_eq!(headers, vec![("OpenAI-Organization".to_string(), "org-42".to_string())]);
    assert_eq!(headers[0].0, ORGANIZATION_HEADER);
}

#[test]
fn organization_with_line_break_is_config_error() {
    let client = Client::new(None).with_org_id("org\nx");
    assert!(matches!(client.headers(), Err(OpenAIError::ConfigError(_))));
    assert!(matches!(client.get("/models"), Err(OpenAIError::ConfigError(_))));
    assert!(matches!(client.post("/edits", vec![]), Err(OpenAIError::ConfigError(_))));
    assert!(matches!(client.post_form("/files"), Err(OpenAIError::ConfigError(_))));
    assert!(matches!(client.delete("/files/1"), Err(OpenAIError::ConfigError(_))));
    assert!(matches!(client.post_stream("/c", vec![]), Err(OpenAIError::ConfigError(_))));
    assert!(matches!(client.get_stream("/c", vec![]), Err(OpenAIError::ConfigError(_))));
}

#[test]
fn organization_with_delete_character_is_config_error() {
    let client = Client::new(None).with_org_id("org\u{7f}");
    assert!(matches!(client.headers(), Err(OpenAIError::ConfigError(_))));
}

#[test]
fn organization_with_control_character_is_config_error() {
    let client = Client::new(None).with_org_id("\u{1f}");
    assert!(matches!(client.headers(), Err(OpenAIError::ConfigError(_))));
}

#[test]
fn organization_with_tab_and_non_ascii_is_accepted() {
    let client = Client::new(None).with_org_id("a\tb \u{e9}\u{4e2d}");
    let headers = client.headers().unwrap();
    assert_eq!(headers[0].1, "a\tb \u{e9}\u{4e2d}");
}

#[test]
fn get_assembles_url_and_bearer_token() {
    let client = Client::new(Some("sk-1".to_string())).with_org_id("org");
    let request = client.get("/models").unwrap();
    assert_eq!(request.method, Method::Get);
    assert_eq!(request.url, "https://api.openai.com/v1/models");
    assert_eq!(request.authorization, "Bearer sk-1");
    assert_eq!(request.headers, vec![("OpenAI-Organization".to_string(), "org".to_string())]);
    assert!(request.query.is_empty());
    assert!(matches!(request.body, Body::Empty));
    assert!(!request.streaming);
    assert!(request.is_duplicable());
}

#[test]
fn empty_key_still_gives_an_authorization_header() {
    let client = Client::new(None);
    let request = client.get("/models").unwrap();
    assert_eq!(request.authorization, "Bearer ");
    assert!(request.headers.is_empty());
}

#[test]
fn delete_assembles_a_delete_request() {
    let client = Client::new(None).with_api_base("http://h/v1");
    let request = client.delete("/files/f-1").unwrap();
    assert_eq!(request.method, Method::Delete);
    assert_eq!(request.url, "http://h/v1/files/f-1");
    assert!(matches!(request.body, Body::Empty));
    assert!(request.is_duplicable());
}

#[test]
fn post_carries_the_json_document() {
    let client = Client::new(None);
    let request = client.post("/completions", b"{\"n\":1}".to_vec()).unwrap();
    assert_eq!(request.method, Method::Post);
    assert_eq!(request.url, "https://api.openai.com/v1/completions");
    match &request.body {
        Body::Json(bytes) => assert_eq!(bytes.as_slice(), b"{\"n\":1}"),
        _ => panic!("expected a JSON body"),
    }
    assert!(request.is_duplicable());
}

#[test]
fn post_form_is_not_duplicable() {
    let client = Client::new(None);
    let request = client.post_form("/files").unwrap();
    assert_eq!(request.method, Method::Post);
    assert!(matches!(request.body, Body::Form));
    assert!(!request.is_duplicable());
}

#[test]
fn stream_requests_are_not_duplicable() {
    let client = Client::new(Some("k".to_string()));
    let post = client.post_stream("/completions", b"{}".to_vec()).unwrap();
    assert_eq!(post.method, Method::Post);
    assert!(post.streaming);
    assert!(!post.is_duplicable());
    assert_eq!(post.authorization, "Bearer k");
    let query = vec![("stream".to_string(), "true".to_string())];
    let get = client.get_stream("/fine-tunes/ft-1/events", query.clone()).unwrap();
    assert_eq!(get.method, Method::Get);
    assert_eq!(get.url, "https://api.openai.com/v1/fine-tunes/ft-1/events");
    assert_eq!(get.query, query);
    assert!(get.streaming);
    assert!(!get.is_duplicable());
}

#[test]
fn json_body_has_json_content_type() {
    let client = Client::new(None);
    assert_eq!(client.post("/x", vec![]).unwrap().content_type(), Some("application/json"));
    assert_eq!(client.post_stream("/x", vec![]).unwrap().content_type(), Some("application/json"));
    assert_eq!(client.get("/x").unwrap().content_type(), None);
    assert_eq!(client.post_form("/x").unwrap().content_type(), None);
}
