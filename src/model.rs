use vstd::prelude::*;
use vstd::string::StringExecFns;
use crate::config::{LLMBackendDef, ProviderConfig};
use llm::chat::{ChatMessage, StructuredOutputFormat};
use crate::job::{JobHandle, JobPool, JobStatus, may_move, report_step, status_in, submit_step};

verus! {

/// llm::chat::ChatMessage, one message of a chat request: carried, unread,
/// to the task that sends it.
#[verifier::external_type_specification]
#[verifier::external_body]
pub struct ExChatMessage(llm::chat::ChatMessage);

/// llm::chat::StructuredOutputFormat, the schema an answer must follow:
/// carried, unread, to the task that builds its client with it.
#[verifier::external_type_specification]
#[verifier::external_body]
pub struct ExStructuredOutputFormat(llm::chat::StructuredOutputFormat);

/// The token limit every provider client is built with.
pub const MAX_TOKENS: u32 = 8192;

/// What can go wrong in building or running a provider call.
#[derive(Debug)]
pub enum ModelError {
    /// The named credential variable is not set.
    MissingApiKey(String),
    /// The provider client could not be built; holds the provider's words.
    LLMClientError(String),
    UnsupportedLLMBackend(LLMBackendDef),
    EmptyResponse,
}

/// The text a job failure with `e` is recorded as.
pub open spec fn error_text(e: ModelError) -> Seq<char> {
    match e {
        ModelError::MissingApiKey(_) => "API key is missing"@,
        ModelError::LLMClientError(_) => "LLM Client Error"@,
        ModelError::UnsupportedLLMBackend(_) => "Unsupported LLM backend"@,
        ModelError::EmptyResponse => "Empty Response"@,
    }
}

impl ModelError {
    /// The description of this error.
    pub fn message(&self) -> (r: String)
        ensures
            r@ == error_text(*self),
    {
        match self {
            ModelError::MissingApiKey(_) => String::from_str("API key is missing"),
            ModelError::LLMClientError(_) => String::from_str("LLM Client Error"),
            ModelError::UnsupportedLLMBackend(_) => String::from_str("Unsupported LLM backend"),
            ModelError::EmptyResponse => String::from_str("Empty Response"),
        }
    }
}

/// The name of the variable that holds the credential for `backend`, or
/// `None` where the backend is not supported.
pub open spec fn key_variable_of(backend: LLMBackendDef) -> Option<Seq<char>> {
    if backend == LLMBackendDef::Google {
        Some("GOOGLE_API_KEY"@)
    } else {
        None
    }
}

/// `a` and `b` build the same client.
pub open spec fn same_settings(a: VariantLLMBuilder, b: VariantLLMBuilder) -> bool {
    &&& a.spec_backend() == b.spec_backend()
    &&& a.spec_model() == b.spec_model()
    &&& a.spec_max_tokens() == b.spec_max_tokens()
    &&& a.spec_api_key() == b.spec_api_key()
}

/// The settings a provider client is built from, with its credential.
pub struct VariantLLMBuilder {
    backend: LLMBackendDef,
    model: String,
    max_tokens: u32,
    api_key: String,
}

impl VariantLLMBuilder {
    pub closed spec fn spec_backend(&self) -> LLMBackendDef {
        self.backend
    }

    pub closed spec fn spec_model(&self) -> Seq<char> {
        self.model@
    }

    pub closed spec fn spec_max_tokens(&self) -> u32 {
        self.max_tokens
    }

    pub closed spec fn spec_api_key(&self) -> Seq<char> {
        self.api_key@
    }

    /// The name of the variable that holds the credential for `backend`.
    pub fn api_key_variable(backend: LLMBackendDef) -> (r: Option<String>)
        ensures
            match r {
                Some(s) => key_variable_of(backend) == Some(s@),
                None => key_variable_of(backend) is None,
            },
    {
        match backend {
            LLMBackendDef::Google => Some(String::from_str("GOOGLE_API_KEY")),
            _ => None,
        }
    }

    /// Builds the settings from `provider_config`, where `api_key` is the
    /// value of the variable that `api_key_variable` names, if it is set.
    /// The backend must be supported, and then the credential present.
    pub fn from_config(provider_config: ProviderConfig, api_key: Option<String>) -> (r: Result<
        VariantLLMBuilder,
        ModelError,
    >)
        ensures
            key_variable_of(provider_config.llm_backend) is None ==> r == Err::<
                VariantLLMBuilder,
                ModelError,
            >(ModelError::UnsupportedLLMBackend(provider_config.llm_backend)),
            key_variable_of(provider_config.llm_backend) is Some && api_key is None ==> (match r {
                Err(ModelError::MissingApiKey(name)) => Some(name@) == key_variable_of(
                    provider_config.llm_backend,
                ),
                _ => false,
            }),
            key_variable_of(provider_config.llm_backend) is Some && api_key is Some ==> (match r {
                Ok(b) => b.spec_backend() == provider_config.llm_backend && b.spec_model()
                    == provider_config.llm_model@ && b.spec_max_tokens() == MAX_TOKENS
                    && b.spec_api_key() == api_key->Some_0@,
                _ => false,
            }),
    {
        let backend = provider_config.llm_backend;
        match Self::api_key_variable(backend) {
            None => Err(ModelError::UnsupportedLLMBackend(backend)),
            Some(name) => match api_key {
                None => Err(ModelError::MissingApiKey(name)),
                Some(key) => Ok(
                    VariantLLMBuilder {
                        backend,
                        model: provider_config.llm_model,
                        max_tokens: MAX_TOKENS,
                        api_key: key,
                    },
                ),
            },
        }
    }

    /// A copy of these settings.
    pub fn duplicate(&self) -> (r: VariantLLMBuilder)
        ensures
            same_settings(r, *self),
    {
        VariantLLMBuilder {
            backend: self.backend,
            model: self.model.clone(),
            max_tokens: self.max_tokens,
            api_key: self.api_key.clone(),
        }
    }

    pub fn backend(&self) -> (r: LLMBackendDef)
        ensures
            r == self.spec_backend(),
    {
        self.backend
    }

    pub fn model(&self) -> (r: &str)
        ensures
            r@ == self.spec_model(),
    {
        self.model.as_str()
    }

    pub fn max_tokens(&self) -> (r: u32)
        ensures
            r == self.spec_max_tokens(),
    {
        self.max_tokens
    }

    pub fn api_key(&self) -> (r: &str)
        ensures
            r@ == self.spec_api_key(),
    {
        self.api_key.as_str()
    }
}

/// How a provider call ended, as the task that made it saw it.
pub enum ProviderReply {
    /// The client could not be built; holds the provider's words.
    BuildFailed(String),
    /// The call failed; holds the provider's description of the failure.
    ChatFailed(String),
    /// The call returned, with its text if it had any.
    Answered(Option<String>),
}

/// The text of the status a job gets from `reply`.
pub open spec fn outcome_text(reply: ProviderReply) -> Seq<char> {
    match reply {
        ProviderReply::BuildFailed(d) => error_text(ModelError::LLMClientError(d)),
        ProviderReply::ChatFailed(e) => e@,
        ProviderReply::Answered(Some(t)) => t@,
        ProviderReply::Answered(None) => error_text(ModelError::EmptyResponse),
    }
}

/// The text a `Completed` or `Failed` status carries.
pub open spec fn status_text(s: JobStatus) -> Seq<char> {
    match s {
        JobStatus::Completed(t) => t@,
        JobStatus::Failed(t) => t@,
        _ => Seq::empty(),
    }
}

/// `s` is the status a job gets from `reply`.
pub open spec fn is_outcome(reply: ProviderReply, s: JobStatus) -> bool {
    &&& s.is_terminal()
    &&& (s is Completed <==> reply matches ProviderReply::Answered(Some(_)))
    &&& status_text(s) == outcome_text(reply)
}

/// `after` is `before` with job `id` ended as `reply` says, where `id` is
/// known and not yet ended; otherwise `after` is `before`.
pub open spec fn complete_step(
    before: Map<Seq<char>, JobStatus>,
    after: Map<Seq<char>, JobStatus>,
    id: Seq<char>,
    reply: ProviderReply,
) -> bool {
    if before.contains_key(id) && !before[id].is_terminal() {
        &&& after.dom() == before.dom()
        &&& is_outcome(reply, after[id])
        &&& forall|k: Seq<char>| k != id && #[trigger] before.contains_key(k) ==> after[k] == before[k]
    } else {
        after == before
    }
}

/// Completing a job that has not ended leaves it ended, never `Pending`:
/// `Failed` with the provider's text after a failed call, `Failed` with
/// "Empty Response" after an answer without text, and `Completed` with the
/// text otherwise.
pub proof fn lemma_completion_ends_job(
    before: Map<Seq<char>, JobStatus>,
    after: Map<Seq<char>, JobStatus>,
    id: Seq<char>,
    reply: ProviderReply,
)
    requires
        complete_step(before, after, id, reply),
        before.contains_key(id),
        !before[id].is_terminal(),
    ensures
        status_in(after, id) is Some,
        after[id].is_terminal(),
        reply is ChatFailed ==> after[id] is Failed && status_text(after[id]) == reply->ChatFailed_0@,
        reply matches ProviderReply::Answered(None) ==> after[id] is Failed && status_text(after[id])
            == "Empty Response"@,
        reply matches ProviderReply::Answered(Some(t)) ==> after[id] is Completed && status_text(
            after[id],
        ) == t@,
{
}

/// The status a job gets from `reply`: `Completed` with the text of an answer
/// that has one, and otherwise `Failed` with the failure's description.
pub fn outcome_of(reply: ProviderReply) -> (r: JobStatus)
    ensures
        is_outcome(reply, r),
{
    match reply {
        ProviderReply::BuildFailed(d) => JobStatus::Failed(ModelError::LLMClientError(d).message()),
        ProviderReply::ChatFailed(e) => JobStatus::Failed(e),
        ProviderReply::Answered(Some(t)) => JobStatus::Completed(t),
        ProviderReply::Answered(None) => JobStatus::Failed(ModelError::EmptyResponse.message()),
    }
}

/// What the task of one job needs: the handle to report with, the settings
/// to build a client from, and what to send.
pub struct JobTask {
    pub handle: JobHandle,
    pub settings: VariantLLMBuilder,
    pub messages: Vec<ChatMessage>,
    pub schema: Option<StructuredOutputFormat>,
}

/// A job pool whose jobs call one provider.
pub struct Model {
    builder: VariantLLMBuilder,
    job_pool: JobPool,
}

impl View for Model {
    type V = Map<Seq<char>, JobStatus>;

    closed spec fn view(&self) -> Map<Seq<char>, JobStatus> {
        self.job_pool@
    }
}

impl Model {
    pub closed spec fn wf(&self) -> bool {
        self.job_pool.wf()
    }

    pub closed spec fn settings(&self) -> VariantLLMBuilder {
        self.builder
    }

    /// A model over `job_pool`, with settings built as `from_config` builds them.
    pub fn new(job_pool: JobPool, provider_config: ProviderConfig, api_key: Option<String>) -> (r:
        Result<Model, ModelError>)
        requires
            job_pool.wf(),
        ensures
            key_variable_of(provider_config.llm_backend) is None ==> r == Err::<Model, ModelError>(
                ModelError::UnsupportedLLMBackend(provider_config.llm_backend),
            ),
            key_variable_of(provider_config.llm_backend) is Some && api_key is None ==> (match r {
                Err(ModelError::MissingApiKey(name)) => Some(name@) == key_variable_of(
                    provider_config.llm_backend,
                ),
                _ => false,
            }),
            key_variable_of(provider_config.llm_backend) is Some && api_key is Some ==> (match r {
                Ok(m) => m.wf() && m@ == job_pool@ && m.settings().spec_backend()
                    == provider_config.llm_backend && m.settings().spec_model()
                    == provider_config.llm_model@ && m.settings().spec_max_tokens() == MAX_TOKENS
                    && m.settings().spec_api_key() == api_key->Some_0@,
                _ => false,
            }),
    {
        match VariantLLMBuilder::from_config(provider_config, api_key) {
            Ok(builder) => Ok(Model { builder, job_pool }),
            Err(e) => Err(e),
        }
    }

    /// Registers a new job, `Pending`, and hands out its handle with a copy
    /// of the settings its task is to build a client from.
    fn submit_job(&mut self) -> (r: (JobHandle, VariantLLMBuilder))
        requires
            old(self).wf(),
        ensures
            final(self).wf(),
            submit_step(old(self)@, final(self)@, r.0@),
            final(self).settings() == old(self).settings(),
            same_settings(r.1, old(self).settings()),
    {
        let handle = self.job_pool.submit_job();
        (handle, self.builder.duplicate())
    }

    /// Registers a new job, `Pending`, whose task sends `messages` and asks
    /// for plain text.
    pub fn submit_text_only_job(&mut self, messages: Vec<ChatMessage>) -> (t: JobTask)
        requires
            old(self).wf(),
        ensures
            final(self).wf(),
            submit_step(old(self)@, final(self)@, t.handle@),
            final(self).settings() == old(self).settings(),
            same_settings(t.settings, old(self).settings()),
            t.messages == messages,
            t.schema is None,
    {
        let (handle, settings) = self.submit_job();
        JobTask { handle, settings, messages, schema: None }
    }

    /// Registers a new job, `Pending`, whose task sends `messages` and asks
    /// for an answer shaped by `schema`.
    pub fn submit_schema_job(&mut self, messages: Vec<ChatMessage>, schema: StructuredOutputFormat) -> (t: JobTask)
        requires
            old(self).wf(),
        ensures
            final(self).wf(),
            submit_step(old(self)@, final(self)@, t.handle@),
            final(self).settings() == old(self).settings(),
            same_settings(t.settings, old(self).settings()),
            t.messages == messages,
            t.schema == Some(schema),
    {
        let (handle, settings) = self.submit_job();
        JobTask { handle, settings, messages, schema: Some(schema) }
    }

    /// Reports `status` for the job of `handle`, as `JobHandle::set_status` does.
    pub fn set_job_status(&mut self, handle: &JobHandle, status: JobStatus) -> (r: bool)
        requires
            old(self).wf(),
        ensures
            final(self).wf(),
            final(self).settings() == old(self).settings(),
            report_step(old(self)@, final(self)@, handle@, status),
            r == (old(self)@.contains_key(handle@) && may_move(old(self)@[handle@], status)),
    {
        handle.set_status(&mut self.job_pool, status)
    }

    /// Ends the job of `handle` with the status `reply` gives it.
    pub fn complete_job(&mut self, handle: JobHandle, reply: ProviderReply) -> (r: bool)
        requires
            old(self).wf(),
        ensures
            final(self).wf(),
            final(self).settings() == old(self).settings(),
            complete_step(old(self)@, final(self)@, handle@, reply),
            r == (old(self)@.contains_key(handle@) && !old(self)@[handle@].is_terminal()),
    {
        let status = outcome_of(reply);
        let r = handle.set_status(&mut self.job_pool, status);
        proof {
            if r {
                assert(self@.dom() =~= old(self)@.dom());
            }
        }
        r
    }

    /// The status of job `job_id`, or `None` if it was never submitted here.
    pub fn get_job_status(&self, job_id: &str) -> (r: Option<JobStatus>)
        requires
            self.wf(),
        ensures
            r == status_in(self@, job_id@),
    {
        self.job_pool.get_job_status(job_id)
    }
}

} // verus!
