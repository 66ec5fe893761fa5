use lazyreader::config::{LLMBackendDef, ProviderConfig};
use lazyreader::job::{JobPool, JobStatus};
use llm::chat::{ChatMessage, StructuredOutputFormat};
use lazyreader::model::{outcome_of, Model, ModelError, ProviderReply, VariantLLMBuilder, MAX_TOKENS};

fn schema() -> StructuredOutputFormat {
    StructuredOutputFormat {
        name: "capitals".to_string(),
        description: None,
        schema: None,
        strict: None,
    }
}

fn google_config() -> ProviderConfig {
    ProviderConfig::default()
}

#[test]
fn transport_error_fails_with_its_text() {
    let s = outcome_of(ProviderReply::ChatFailed("connection reset".to_string()));
    assert!(matches!(s, JobStatus::Failed(t) if t == "connection reset"));
}

#[test]
fn empty_response_fails() {
    let s = outcome_of(ProviderReply::Answered(None));
    assert!(matches!(s, JobStatus::Failed(t) if t == "Empty Response"));
}

#[test]
fn client_build_failure_is_reported_uniformly() {
    let s = outcome_of(ProviderReply::BuildFailed("bad model".to_string()));
    assert!(matches!(s, JobStatus::Failed(t) if t == "LLM Client Error"));
}

#[test]
fn answer_completes() {
    let s = outcome_of(ProviderReply::Answered(Some("Paris".to_string())));
    assert!(matches!(s, JobStatus::Completed(t) if t == "Paris"));
}

#[test]
fn error_messages() {
    assert_eq!(ModelError::MissingApiKey("K".to_string()).message(), "API key is missing");
    assert_eq!(ModelError::LLMClientError("x".to_string()).message(), "LLM Client Error");
    assert_eq!(ModelError::UnsupportedLLMBackend(LLMBackendDef::OpenAI).message(), "Unsupported LLM backend");
    assert_eq!(ModelError::EmptyResponse.message(), "Empty Response");
}

#[test]
fn key_variable_per_backend() {
    assert_eq!(VariantLLMBuilder::api_key_variable(LLMBackendDef::Google).as_deref(), Some("GOOGLE_API_KEY"));
    assert!(VariantLLMBuilder::api_key_variable(LLMBackendDef::Mistral).is_none());
}

#[test]
fn builder_from_config() {
    let b = VariantLLMBuilder::from_config(google_config(), Some("secret".to_string())).unwrap();
    assert_eq!(b.backend(), LLMBackendDef::Google);
    assert_eq!(b.model(), "gemini-3-pro-preview");
    assert_eq!(b.max_tokens(), MAX_TOKENS);
    assert_eq!(b.max_tokens(), 8192);
    assert_eq!(b.api_key(), "secret");
    let c = b.duplicate();
    assert_eq!(c.api_key(), "secret");
}

#[test]
fn missing_key_is_refused() {
    let r = VariantLLMBuilder::from_config(google_config(), None);
    assert!(matches!(r, Err(ModelError::MissingApiKey(n)) if n == "GOOGLE_API_KEY"));
}

#[test]
fn unsupported_backend_is_refused() {
    let mut cfg = google_config();
    cfg.llm_backend = LLMBackendDef::Anthropic;
    let r = Model::new(JobPool::new(), cfg, Some("k".to_string()));
    assert!(matches!(r, Err(ModelError::UnsupportedLLMBackend(LLMBackendDef::Anthropic))));
}

#[test]
fn model_runs_jobs_to_their_outcome() {
    let mut model = Model::new(JobPool::new(), google_config(), Some("k".to_string())).unwrap();
    let t1 = model.submit_text_only_job(vec![ChatMessage::user().content("What is the capital of France?").build()]);
    let t2 = model.submit_text_only_job(vec![]);
    let t3 = model.submit_schema_job(vec![], schema());
    assert_eq!(t1.settings.api_key(), "k");
    assert_eq!(t1.settings.model(), "gemini-3-pro-preview");
    assert_eq!(t1.messages.len(), 1);
    assert!(t1.schema.is_none());
    assert_eq!(t3.schema.as_ref().map(|s| s.name.as_str()), Some("capitals"));
    let (h1, h2, h3) = (t1.handle, t2.handle, t3.handle);
    let id1 = h1.get_id().to_string();
    let id2 = h2.get_id().to_string();
    let id3 = h3.get_id().to_string();
    assert!(matches!(model.get_job_status(&id1), Some(JobStatus::Pending)));
    assert!(model.set_job_status(&h1, JobStatus::InProgress));
    assert!(model.complete_job(h1, ProviderReply::Answered(Some("A".to_string()))));
    assert!(model.complete_job(h2, ProviderReply::ChatFailed("timeout".to_string())));
    assert!(model.complete_job(h3, ProviderReply::Answered(None)));
    assert!(matches!(model.get_job_status(&id1), Some(JobStatus::Completed(t)) if t == "A"));
    assert!(matches!(model.get_job_status(&id2), Some(JobStatus::Failed(t)) if t == "timeout"));
    assert!(matches!(model.get_job_status(&id3), Some(JobStatus::Failed(t)) if t == "Empty Response"));
    assert!(model.get_job_status("missing").is_none());
}
