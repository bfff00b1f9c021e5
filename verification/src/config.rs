//! The configuration snapshot a manager is built from. The caller (the
//! settings layer) owns it: the library never reads files or the
//! environment itself.

use vstd::prelude::*;
use vstd::string::*;

verus! {

/// An immutable snapshot of the user's backend settings.
#[derive(Clone, Debug)]
pub struct LLMConfig {
    /// Which backend is selected: `"GPT"` (or `"OpenAICompatible"`) for the
    /// OpenAI-compatible backend, `"GitHub"` (or `"GitHubModels"`) for
    /// GitHub Models. Anything else falls back to the OpenAI-compatible
    /// backend.
    pub provider: String,
    pub model: String,
    pub api_key: Option<String>,
    pub base_url: Option<String>,
    /// A GitHub token, possibly found by the caller in its environment.
    pub github_token: Option<String>,
    pub enable_streaming: bool,
}

impl Default for LLMConfig {
    /// The stock configuration: the OpenAI-compatible backend with `gpt-4o`,
    /// streaming on, and no credentials yet.
    fn default() -> (r: Self)
        ensures
            r.provider@ == "GPT"@,
            r.model@ == "gpt-4o"@,
            r.api_key is None,
            r.base_url is None,
            r.github_token is None,
            r.enable_streaming,
    {
        LLMConfig {
            provider: String::from_str("GPT"),
            model: String::from_str("gpt-4o"),
            api_key: None,
            base_url: None,
            github_token: None,
            enable_streaming: true,
        }
    }
}

/// The one-line summary of a configuration, with credentials shown only as
/// configured or not.
pub open spec fn spec_summary(c: LLMConfig) -> Seq<char> {
    "提供商: "@ + c.provider@ + " | 模型: "@ + c.model@ + " | 流式: "@ + (if c.enable_streaming {
        "启用"@
    } else {
        "禁用"@
    }) + " | API Key: "@ + (if c.api_key is Some {
        "已配置"@
    } else {
        "未配置"@
    }) + " | GitHub Token: "@ + (if c.github_token is Some {
        "已配置"@
    } else {
        "未配置"@
    })
}

impl LLMConfig {
    /// A one-line human-readable summary; credential values never appear.
    pub fn summary(&self) -> (r: String)
        ensures
            r@ == spec_summary(*self),
    {
        let mut r = String::from_str("提供商: ");
        r.append(self.provider.as_str());
        r.append(" | 模型: ");
        r.append(self.model.as_str());
        r.append(" | 流式: ");
        r.append(if self.enable_streaming { "启用" } else { "禁用" });
        r.append(" | API Key: ");
        r.append(if self.api_key.is_some() { "已配置" } else { "未配置" });
        r.append(" | GitHub Token: ");
        r.append(if self.github_token.is_some() { "已配置" } else { "未配置" });
        r
    }
}

} // verus!
