use whisper_flow::error::FlowError;
use whisper_flow::provider::{
    base_url_from_lowered, build_request, interpret_response, provider_base_url, response_outcome,
    FALLBACK_BASE_URL, GROK_BASE_URL, GROQ_BASE_URL,
};

#[test]
fn provider_endpoints() {
    assert_eq!(provider_base_url("groq"), "https://api.groq.com/openai/v1");
    assert_eq!(provider_base_url("grok"), "https://api.x.ai/v1");
    assert_eq!(provider_base_url("foo"), "https://openrouter.ai/api/v1");
    assert_eq!(provider_base_url("GROQ"), GROQ_BASE_URL);
    assert_eq!(provider_base_url("Grok"), GROK_BASE_URL);
    assert_eq!(provider_base_url("gemini"), FALLBACK_BASE_URL);
    assert_eq!(provider_base_url("openrouter"), FALLBACK_BASE_URL);
    assert_eq!(provider_base_url(""), FALLBACK_BASE_URL);
    assert_eq!(base_url_from_lowered("GROQ"), FALLBACK_BASE_URL);
}

#[test]
fn request_parts() {
    let r = build_request("sk-1", "whisper-large-v3", "https://api.groq.com/openai/v1");
    assert_eq!(r.url, "https://api.groq.com/openai/v1/audio/transcriptions");
    assert_eq!(r.authorization, "Bearer sk-1");
    assert_eq!(r.model, "whisper-large-v3");
}

#[test]
fn success_with_text() {
    assert_eq!(interpret_response(200, r#"{"text":"hello"}"#), Ok("hello".to_string()));
    assert_eq!(
        interpret_response(201, r#"{"text":"two words","duration":1.5}"#),
        Ok("two words".to_string())
    );
}

#[test]
fn success_without_text_is_malformed() {
    assert_eq!(interpret_response(200, r#"{"error":"bad"}"#), Err(FlowError::MalformedResponse));
    assert_eq!(interpret_response(200, r#"{"text":5}"#), Err(FlowError::MalformedResponse));
    assert_eq!(interpret_response(200, "not json"), Err(FlowError::MalformedResponse));
    assert_eq!(interpret_response(200, r#"["text"]"#), Err(FlowError::MalformedResponse));
}

#[test]
fn error_status_carries_body() {
    assert_eq!(
        interpret_response(401, "unauthorized"),
        Err(FlowError::ApiError { status: 401, body: "unauthorized".to_string() })
    );
    assert_eq!(
        interpret_response(500, r#"{"text":"ignored"}"#),
        Err(FlowError::ApiError { status: 500, body: r#"{"text":"ignored"}"#.to_string() })
    );
    assert_eq!(
        interpret_response(199, ""),
        Err(FlowError::ApiError { status: 199, body: String::new() })
    );
}

#[test]
fn outcome_from_extracted_text() {
    assert_eq!(response_outcome(200, "b", Some("hi".to_string())), Ok("hi".to_string()));
    assert_eq!(response_outcome(299, "b", None), Err(FlowError::MalformedResponse));
    assert_eq!(
        response_outcome(300, "b", Some("hi".to_string())),
        Err(FlowError::ApiError { status: 300, body: "b".to_string() })
    );
}
