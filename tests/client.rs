use stabilityai::client::{generation_path, GenerationEndpoint, ENGINES_LIST_PATH};
use stabilityai::error::{map_deserialization_error, ApiError, StabilityAIError};
use stabilityai::policy::RetryPolicy;
use stabilityai::{Client, API_BASE};

fn pairs(v: Vec<(String, String)>) -> Vec<(&'static str, String)> {
    v.into_iter()
        .map(|(k, v)| {
            let k: &'static str = Box::leak(k.into_boxed_str());
            (k, v)
        })
        .collect()
}

#[test]
fn new_client_defaults() {
    let c = Client::new(None);
    assert_eq!(c.api_base(), API_BASE);
    assert_eq!(c.api_key(), "");
    assert!(c.headers().unwrap().is_empty());
    let c = Client::new(Some("sk-123".to_string()));
    assert_eq!(c.api_key(), "sk-123");
}

#[test]
fn builders_replace_settings() {
    let c = Client::new(None)
        .with_api_key("key")
        .with_api_base("http://localhost:8080/v1")
        .with_organization("the-continental");
    assert_eq!(c.api_key(), "key");
    assert_eq!(c.api_base(), "http://localhost:8080/v1");
    assert_eq!(c.url(ENGINES_LIST_PATH), "http://localhost:8080/v1/engines/list");
    assert_eq!(pairs(c.headers().unwrap()), vec![("Organization", "the-continental".to_string())]);
}

#[test]
fn headers_skip_empty_values() {
    let c = Client::new(None).with_client_id("").with_client_version("1.2.3");
    assert_eq!(pairs(c.headers().unwrap()), vec![("Stability-Client-Version", "1.2.3".to_string())]);
    let c = Client::new(None).with_organization("org").with_client_id("app");
    assert_eq!(
        pairs(c.headers().unwrap()),
        vec![("Organization", "org".to_string()), ("Stability-Client-ID", "app".to_string())]
    );
}

#[test]
fn retry_policy_is_a_copy_of_the_clients() {
    let c = Client::new(None).with_backoff(RetryPolicy::new(100, 1_000, Some(0)).unwrap());
    let mut p = c.retry_policy();
    p.restart();
    assert!(p.next_interval().is_none());
    let mut q = Client::new(None).retry_policy();
    q.restart();
    assert!(q.next_interval().is_some());
}

#[test]
fn header_values_with_control_characters_are_refused() {
    let c = Client::new(None).with_organization("evil\r\nX-Injected: 1");
    match c.headers() {
        Err(StabilityAIError::InvalidArgument(m)) => {
            assert_eq!(m, "a header value holds a control character")
        }
        other => panic!("unexpected {:?}", other),
    }
    let c = Client::new(None).with_client_version("1.0\u{7f}");
    assert!(c.headers().is_err());
    let c = Client::new(None).with_client_id("tab\tand caf\u{e9}");
    assert_eq!(pairs(c.headers().unwrap()), vec![("Stability-Client-ID", "tab\tand caf\u{e9}".to_string())]);
}

#[test]
fn generation_paths() {
    assert_eq!(
        generation_path("stable-diffusion-v1-6", GenerationEndpoint::TextToImage),
        "/generation/stable-diffusion-v1-6/text-to-image"
    );
    assert_eq!(
        generation_path("esrgan-v1-x2plus", GenerationEndpoint::ImageToImageUpscale),
        "/generation/esrgan-v1-x2plus/image-to-image/upscale"
    );
    assert_eq!(
        generation_path("e", GenerationEndpoint::ImageToImageMasking),
        "/generation/e/image-to-image/masking"
    );
    assert_eq!(generation_path("e", GenerationEndpoint::ImageToImage), "/generation/e/image-to-image");
}

#[test]
fn error_texts() {
    let api = ApiError { id: "1".to_string(), name: "bad_request".to_string(), message: "no".to_string() };
    assert_eq!(StabilityAIError::ApiError(api).to_string(), "id: 1, name: bad_request, message: no");
    assert_eq!(StabilityAIError::Reqwest("timeout".to_string()).to_string(), "http error: timeout");
    assert_eq!(
        map_deserialization_error("eof".to_string(), b"{".to_vec()).to_string(),
        "failed to deserialize api response: eof"
    );
    assert_eq!(StabilityAIError::FileSaveError("x".to_string()).to_string(), "failed to save file: x");
    assert_eq!(StabilityAIError::FileReadError("y".to_string()).to_string(), "failed to read file: y");
    assert_eq!(StabilityAIError::InvalidArgument("z".to_string()).to_string(), "invalid args: z");
}

#[test]
fn deserialization_error_keeps_the_body() {
    match map_deserialization_error("eof".to_string(), b"{\"id\"".to_vec()) {
        StabilityAIError::JSONDeserialize { reason, body } => {
            assert_eq!(reason, "eof");
            assert_eq!(body, b"{\"id\"".to_vec());
        }
        other => panic!("unexpected {:?}", other),
    }
}
