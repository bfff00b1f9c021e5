//! Core of a clipboard-to-LLM assistant: pluggable chat backends, a manager
//! that selects among them, and the streaming-with-fallback delivery policy
//! that turns backend events into an ordered sequence of response chunks.
//!
//! The network calls themselves live outside the library: a caller opens a
//! send through [`manager::LLMManager`] and [`backend::Backend`], performs
//! the streaming and fallback attempts, and feeds their outcomes into a
//! [`session::SendSession`], which decides every chunk that is delivered.

pub mod backend;
pub mod config;
pub mod encoding;
pub mod error;
pub mod imaging;
pub mod manager;
pub mod message;
pub mod provider;
pub mod question;
pub mod response;
pub mod session;
pub mod textfmt;

pub use backend::{Backend, ChoiceReply, GitHubBackend, Openai};
pub use config::LLMConfig;
pub use error::{BackendError, IndexError};
pub use manager::LLMManager;
pub use message::{ChatMsg, Role};
pub use provider::LLMProvider;
pub use question::{AdditionalCodeGenerator, PromptTemplate, Question, QuestionType};
pub use response::LLMResponse;
pub use session::{SendPhase, SendSession};
