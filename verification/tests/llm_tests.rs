//! The refinement client's configuration and request computation.

use voice_input::llm::OllamaClient;

#[test]
fn test_default_client() {
    let client = OllamaClient::default();
    assert_eq!(client.base_url(), "http://localhost:11434");
    assert_eq!(client.model(), "gpt-oss:20b");
}

#[test]
fn test_custom_client() {
    let client = OllamaClient::new("http://192.168.1.100:11434/", "llama2");
    assert_eq!(client.base_url(), "http://192.168.1.100:11434");
    assert_eq!(client.model(), "llama2");
}

#[test]
fn test_many_trailing_slashes_dropped() {
    let client = OllamaClient::new("http://example.com///", "m");
    assert_eq!(client.base_url(), "http://example.com");
}

#[test]
fn test_endpoint_urls() {
    let client = OllamaClient::new("http://localhost:11434", "m");
    assert_eq!(client.generate_url(), "http://localhost:11434/api/generate");
    assert_eq!(client.tags_url(), "http://localhost:11434/api/tags");
}

#[test]
fn test_refinement_request_replaces_input_marker() {
    let client = OllamaClient::new("http://localhost:11434/", "llama2");
    let req = client.refinement_request("hello there", "Fix this: {input}\nOnly the text.");
    assert_eq!(req.url, "http://localhost:11434/api/generate");
    assert_eq!(req.model, "llama2");
    assert_eq!(req.prompt, "Fix this: hello there\nOnly the text.");
}

#[test]
fn test_refinement_request_replaces_every_marker() {
    let client = OllamaClient::new("http://h", "m");
    let req = client.refinement_request("X", "{input} and {input}");
    assert_eq!(req.prompt, "X and X");
}

#[test]
fn test_refinement_request_without_marker_keeps_template() {
    let client = OllamaClient::new("http://h", "m");
    let req = client.refinement_request("ignored", "no marker here");
    assert_eq!(req.prompt, "no marker here");
}
