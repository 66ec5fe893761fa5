use vstd::prelude::*;
use vstd::string::StringExecFns;

verus! {

/// The provider backends a configuration can name.
#[derive(Debug, Clone, Copy, PartialEq, Eq, Structural)]
pub enum LLMBackendDef {
    /// OpenAI API provider (GPT-3, GPT-4, etc.)
    OpenAI,
    /// Anthropic API provider
    Anthropic,
    /// Ollama local LLM provider for self-hosted models
    Ollama,
    /// DeepSeek API provider for their LLM models
    DeepSeek,
    /// X.AI (formerly Twitter) API provider
    XAI,
    /// Phind API provider for code-specialized models
    Phind,
    /// Google Gemini API provider
    Google,
    /// Groq API provider
    Groq,
    /// Azure OpenAI API provider
    AzureOpenAI,
    /// ElevenLabs API provider
    ElevenLabs,
    /// Cohere API provider
    Cohere,
    /// Mistral API provider
    Mistral,
    /// OpenRouter API provider
    OpenRouter,
    /// HuggingFace Inference Providers API
    HuggingFace,
}

/// Where the server listens.
#[derive(Debug)]
pub struct ServerConfig {
    pub addr: String,
    pub port: u16,
}

impl Default for ServerConfig {
    fn default() -> (r: ServerConfig)
        ensures
            r.addr@ == "0.0.0.0"@,
            r.port == 8765,
    {
        ServerConfig { addr: String::from_str("0.0.0.0"), port: 8765 }
    }
}

/// The external services the jobs call.
#[derive(Debug)]
pub struct ProviderConfig {
    pub mineru_addr: String,
    pub mineru_port: u16,
    pub llm_backend: LLMBackendDef,
    pub llm_model: String,
}

impl Default for ProviderConfig {
    fn default() -> (r: ProviderConfig)
        ensures
            r.mineru_addr@ == "localhost"@,
            r.mineru_port == 8848,
            r.llm_backend == LLMBackendDef::Google,
            r.llm_model@ == "gemini-3-pro-preview"@,
    {
        ProviderConfig {
            mineru_addr: String::from_str("localhost"),
            mineru_port: 8848,
            llm_backend: LLMBackendDef::Google,
            llm_model: String::from_str("gemini-3-pro-preview"),
        }
    }
}

/// The whole configuration.
#[derive(Debug)]
pub struct Config {
    pub server: ServerConfig,
    pub provider: ProviderConfig,
}

impl Default for Config {
    fn default() -> (r: Config)
        ensures
            r.server.addr@ == "0.0.0.0"@,
            r.server.port == 8765,
            r.provider.mineru_addr@ == "localhost"@,
            r.provider.mineru_port == 8848,
            r.provider.llm_backend == LLMBackendDef::Google,
            r.provider.llm_model@ == "gemini-3-pro-preview"@,
    {
        Config { server: ServerConfig::default(), provider: ProviderConfig::default() }
    }
}

} // verus!
