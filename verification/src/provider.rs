use vstd::prelude::*;

verus! {

/// Identifies one of the two built-in chat backends.
#[derive(Clone, Copy, Debug, PartialEq, Eq, Structural)]
pub enum LLMProvider {
    /// An OpenAI-compatible chat-completion endpoint.
    GPT,
    /// The GitHub Models inference endpoint.
    GitHub,
}

impl LLMProvider {
    /// Stable textual tag for the provider, as used in configuration files.
    pub fn name(&self) -> (r: &'static str)
        ensures
            *self == LLMProvider::GPT ==> r@ == "GPT"@,
            *self == LLMProvider::GitHub ==> r@ == "GitHub"@,
    {
        match self {
            LLMProvider::GPT => "GPT",
            LLMProvider::GitHub => "GitHub",
        }
    }
}

} // verus!
