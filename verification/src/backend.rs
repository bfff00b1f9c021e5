//! The two built-in chat backends and the decisions they make around a call:
//! credential checks, payload construction, reply extraction. The network
//! call itself happens outside the library; everything on either side of it
//! is decided here.

use vstd::prelude::*;
use vstd::string::*;

use crate::error::BackendError;
use crate::message::{build_messages, opt_bytes_view, spec_attachment, ChatMsg, Role};
use crate::provider::LLMProvider;
use crate::response::LLMResponse;
use crate::session::{init_session, SendSession};

verus! {

/// An OpenAI-compatible chat backend: a model, an API key, and an optional
/// custom base URL for OpenAI-compatible gateways.
#[derive(Clone, Debug)]
pub struct Openai {
    pub model_name: String,
    pub api_key: Option<String>,
    pub base_url: Option<String>,
}

impl Default for Openai {
    /// The stock configuration: `gpt-4o` against the default gateway.
    fn default() -> (r: Self)
        ensures
            r.model_name@ == "gpt-4o"@,
            r.api_key is None,
            r.base_url matches Some(u) && u@ == "https://api.tu-zi.com/v1"@,
    {
        Openai {
            model_name: String::from_str("gpt-4o"),
            api_key: None,
            base_url: Some(String::from_str("https://api.tu-zi.com/v1")),
        }
    }
}

impl Openai {
    /// A backend for the given model, with no credentials or custom URL yet.
    pub fn new(model: String) -> (r: Self)
        ensures
            r.model_name == model,
            r.api_key is None,
            r.base_url is None,
    {
        Openai { model_name: model, api_key: None, base_url: None }
    }

    /// The same backend with this API key.
    pub fn with_api_key(self, api_key: String) -> (r: Self)
        ensures
            r.model_name == self.model_name,
            r.api_key matches Some(k) && k == api_key,
            r.base_url == self.base_url,
    {
        Openai { api_key: Some(api_key), ..self }
    }

    /// The configured API key, if any.
    pub fn get_api_key(&self) -> (r: Option<&str>)
        ensures
            match r {
                Some(k) => self.api_key matches Some(key) && k@ == key@,
                None => self.api_key is None,
            },
    {
        match &self.api_key {
            Some(k) => Some(k.as_str()),
            None => None,
        }
    }

    /// The same backend with this base URL.
    pub fn with_base_url(self, base_url: String) -> (r: Self)
        ensures
            r.model_name == self.model_name,
            r.api_key == self.api_key,
            r.base_url matches Some(u) && u == base_url,
    {
        Openai { base_url: Some(base_url), ..self }
    }

    /// The configured base URL, if any.
    pub fn get_base_url(&self) -> (r: Option<&str>)
        ensures
            match r {
                Some(u) => self.base_url matches Some(url) && u@ == url@,
                None => self.base_url is None,
            },
    {
        match &self.base_url {
            Some(u) => Some(u.as_str()),
            None => None,
        }
    }

    /// The configured model identifier.
    pub fn get_model_name(&self) -> (r: &str)
        ensures
            r@ == self.model_name@,
    {
        self.model_name.as_str()
    }
}

/// A GitHub Models chat backend: a model, a GitHub token, and the inference
/// endpoint.
#[derive(Clone, Debug)]
pub struct GitHubBackend {
    pub model: String,
    pub api_token: Option<String>,
    pub base_url: String,
}

impl Default for GitHubBackend {
    /// The stock configuration: `gpt-4o` against the fixed inference
    /// endpoint, with the token still to be supplied by the caller.
    fn default() -> (r: Self)
        ensures
            r.model@ == "gpt-4o"@,
            r.api_token is None,
            r.base_url@ == "https://models.inference.ai.azure.com"@,
    {
        GitHubBackend {
            model: String::from_str("gpt-4o"),
            api_token: None,
            base_url: String::from_str("https://models.inference.ai.azure.com"),
        }
    }
}

impl GitHubBackend {
    /// A backend for the given model against the fixed inference endpoint.
    /// The token is supplied separately by the caller.
    pub fn new(model: String) -> (r: Self)
        ensures
            r.model == model,
            r.api_token is None,
            r.base_url@ == "https://models.inference.ai.azure.com"@,
    {
        GitHubBackend {
            model,
            api_token: None,
            base_url: String::from_str("https://models.inference.ai.azure.com"),
        }
    }

    /// The same backend with this GitHub token.
    pub fn with_api_key(self, api_key: String) -> (r: Self)
        ensures
            r.model == self.model,
            r.api_token matches Some(k) && k == api_key,
            r.base_url == self.base_url,
    {
        GitHubBackend { api_token: Some(api_key), ..self }
    }

    /// The same backend with a custom endpoint.
    pub fn with_base_url(self, base_url: String) -> (r: Self)
        ensures
            r.model == self.model,
            r.api_token == self.api_token,
            r.base_url == base_url,
    {
        GitHubBackend { base_url, ..self }
    }
}

/// One of the two built-in backends; the manager owns a list of these.
#[derive(Clone, Debug)]
pub enum Backend {
    Gpt(Openai),
    GitHub(GitHubBackend),
}

/// Whether the backend has the credential it needs to make a call.
pub open spec fn spec_has_credentials(b: Backend) -> bool {
    match b {
        Backend::Gpt(o) => o.api_key is Some,
        Backend::GitHub(g) => g.api_token is Some,
    }
}

/// What a backend reports when its credential is missing.
pub open spec fn spec_missing_credential_text(b: Backend) -> Seq<char> {
    match b {
        Backend::Gpt(_) => "OpenAI API key not available. Please configure an API key."@,
        Backend::GitHub(_) =>
            "GitHub token not available. Please set GITHUB_TOKEN environment variable."@,
    }
}

/// The system text a backend sends with a text-only request.
pub open spec fn spec_system_plain(b: Backend) -> Seq<char> {
    match b {
        Backend::Gpt(_) => "You are a helpful assistant."@,
        Backend::GitHub(_) => "you have to follow the follow rules"@,
    }
}

/// The system text a backend sends when an image is attached.
pub open spec fn spec_system_image(b: Backend) -> Seq<char> {
    match b {
        Backend::Gpt(_) => "You are a helpful assistant."@,
        Backend::GitHub(_) =>
            "You are GitHub Copilot, a helpful AI assistant for analyzing questions and images."@,
    }
}

/// The canned probe sent by an availability test.
pub open spec fn spec_probe_text() -> Seq<char> {
    "please confirm you are available"@
}

/// The provider tag of a backend.
pub open spec fn spec_provider(b: Backend) -> LLMProvider {
    match b {
        Backend::Gpt(_) => LLMProvider::GPT,
        Backend::GitHub(_) => LLMProvider::GitHub,
    }
}

/// The model identifier of a backend.
pub open spec fn spec_model_name(b: Backend) -> Seq<char> {
    match b {
        Backend::Gpt(o) => o.model_name@,
        Backend::GitHub(g) => g.model@,
    }
}

impl Backend {
    /// The stable provider tag of this backend.
    pub fn provider(&self) -> (r: LLMProvider)
        ensures
            r == spec_provider(*self),
    {
        match self {
            Backend::Gpt(_) => LLMProvider::GPT,
            Backend::GitHub(_) => LLMProvider::GitHub,
        }
    }

    /// The configured model identifier.
    pub fn model_name(&self) -> (r: &str)
        ensures
            r@ == spec_model_name(*self),
    {
        match self {
            Backend::Gpt(b) => b.model_name.as_str(),
            Backend::GitHub(b) => b.model.as_str(),
        }
    }

    /// Whether the backend has the credential it needs.
    pub fn has_credentials(&self) -> (r: bool)
        ensures
            r == spec_has_credentials(*self),
    {
        match self {
            Backend::Gpt(o) => o.api_key.is_some(),
            Backend::GitHub(g) => g.api_token.is_some(),
        }
    }

    /// An exact copy of this backend, for snapshot-at-dispatch semantics: a
    /// call runs against the copy, so later manager changes cannot touch it.
    pub fn snapshot(&self) -> (r: Self)
        ensures
            r == *self,
    {
        match self {
            Backend::Gpt(o) => Backend::Gpt(
                Openai {
                    model_name: o.model_name.clone(),
                    api_key: clone_opt_string(&o.api_key),
                    base_url: clone_opt_string(&o.base_url),
                },
            ),
            Backend::GitHub(g) => Backend::GitHub(
                GitHubBackend {
                    model: g.model.clone(),
                    api_token: clone_opt_string(&g.api_token),
                    base_url: g.base_url.clone(),
                },
            ),
        }
    }

    /// Begin a send. With the credential present this opens a fresh session
    /// (the caller then makes the streaming attempt); without it the call
    /// fails immediately — no network attempt — and hands back both the
    /// terminal error chunk to deliver and the error for the direct caller.
    pub fn start_send(&self) -> (r: Result<SendSession, (LLMResponse, BackendError)>)
        ensures
            r is Ok <==> spec_has_credentials(*self),
            r is Ok ==> r->Ok_0@ == init_session(),
            r is Err ==> ({
                let (chunk, err) = r->Err_0;
                &&& chunk@.is_complete
                &&& chunk@.content == "Error: "@ + spec_missing_credential_text(*self)
                &&& err is MissingCredential
                &&& err->MissingCredential_detail@ == spec_missing_credential_text(*self)
            }),
    {
        if self.has_credentials() {
            Ok(SendSession::new())
        } else {
            let detail = match self {
                Backend::Gpt(_) => String::from_str(
                    "OpenAI API key not available. Please configure an API key.",
                ),
                Backend::GitHub(_) => String::from_str(
                    "GitHub token not available. Please set GITHUB_TOKEN environment variable.",
                ),
            };
            let mut content = String::from_str("Error: ");
            content.append(detail.as_str());
            Err(
                (
                    LLMResponse { content, is_complete: true },
                    BackendError::MissingCredential { detail },
                ),
            )
        }
    }

    /// The payload for a user request: this backend's system texts around
    /// the user's text and optional image.
    pub fn request_messages(&self, text: &str, image: Option<&Vec<u8>>) -> (r: Vec<ChatMsg>)
        ensures
            r@.len() == 2,
            r@[0].role == Role::System,
            r@[0].image_data_url is None,
            r@[1].role == Role::User,
            r@[1].text@ == text@,
            ({
                let att = spec_attachment(opt_bytes_view(image));
                match att {
                    Some(u) => r@[1].image_data_url matches Some(du) && du@ == u && r@[0].text@
                        == spec_system_image(*self),
                    None => r@[1].image_data_url is None && r@[0].text@ == spec_system_plain(
                        *self,
                    ),
                }
            }),
    {
        match self {
            Backend::Gpt(_) => build_messages(
                "You are a helpful assistant.",
                "You are a helpful assistant.",
                text,
                image,
            ),
            Backend::GitHub(_) => build_messages(
                "you have to follow the follow rules",
                "You are GitHub Copilot, a helpful AI assistant for analyzing questions and images.",
                text,
                image,
            ),
        }
    }

    /// The payload for an availability test: the fixed canned probe, with no
    /// image.
    pub fn test_messages(&self) -> (r: Vec<ChatMsg>)
        ensures
            r@.len() == 2,
            r@[0].role == Role::System,
            r@[0].text@ == spec_system_plain(*self),
            r@[0].image_data_url is None,
            r@[1].role == Role::User,
            r@[1].text@ == spec_probe_text(),
            r@[1].image_data_url is None,
    {
        self.request_messages("please confirm you are available", None)
    }
}

/// A field-for-field copy of an optional string.
fn clone_opt_string(s: &Option<String>) -> (r: Option<String>)
    ensures
        r == *s,
{
    match s {
        Some(x) => Some(x.clone()),
        None => None,
    }
}

/// The first choice's reply content from a non-streaming response, as handed
/// back by the transport.
#[derive(Clone, Debug)]
pub struct ChoiceReply {
    pub content: Option<String>,
}

/// The reply text of a non-streaming response: the first choice's content.
/// A response with no choices or no content field is a protocol error.
pub fn extract_reply(choices: &Vec<ChoiceReply>) -> (r: Result<String, BackendError>)
    ensures
        r is Ok <==> (choices@.len() > 0 && choices@[0].content is Some),
        r is Ok ==> r->Ok_0@ == choices@[0].content->0@,
        r is Err ==> r->Err_0 is Protocol && r->Err_0->Protocol_detail@
            == "No response content received"@,
{
    if choices.len() > 0 {
        match &choices[0].content {
            Some(c) => {
                return Ok(c.clone());
            },
            None => {},
        }
    }
    Err(BackendError::Protocol { detail: String::from_str("No response content received") })
}

/// The outcome of an availability test, given the full reply text the
/// session collected: an empty reply counts as a protocol error, anything
/// else is the reply.
pub fn finish_test(content: String) -> (r: Result<String, BackendError>)
    ensures
        r is Ok <==> content@.len() > 0,
        r is Ok ==> r->Ok_0 == content,
        r is Err ==> r->Err_0 is Protocol && r->Err_0->Protocol_detail@
            == "No response content received"@,
{
    if content.as_str().is_empty() {
        Err(BackendError::Protocol { detail: String::from_str("No response content received") })
    } else {
        Ok(content)
    }
}

} // verus!
