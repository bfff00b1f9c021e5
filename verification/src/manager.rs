//! The backend manager: owns both built-in backends, tracks which one is
//! current, and hands out by-value snapshots for dispatch so that switching
//! backends never touches a call already in flight.

use vstd::prelude::*;
use vstd::string::*;

use crate::backend::{spec_model_name, spec_provider, Backend, GitHubBackend, Openai};
use crate::config::LLMConfig;
use crate::error::{BackendError, IndexError};
use crate::provider::LLMProvider;
use crate::textfmt::str_eq;

verus! {

/// Owns the registered backends and the index of the current one.
///
/// Both backends are constructed eagerly from one configuration snapshot, so
/// switching providers at runtime only flips `current_backend`; credential
/// validation happens at call time, not at construction time.
#[derive(Clone, Debug)]
pub struct LLMManager {
    pub backends: Vec<Backend>,
    pub current_backend: Option<usize>,
}

/// Which index `from_config` selects for a provider tag: GitHub Models when
/// the tag says so, the OpenAI-compatible backend otherwise (including for
/// unrecognized tags).
pub open spec fn spec_initial_index(provider: Seq<char>) -> int {
    if provider == "GitHub"@ || provider == "GitHubModels"@ {
        1int
    } else {
        0int
    }
}

impl LLMManager {
    /// An empty manager: no backends, no current index.
    pub fn new() -> (r: Self)
        ensures
            r.backends@.len() == 0,
            r.current_backend is None,
    {
        LLMManager { backends: Vec::new(), current_backend: None }
    }

    /// Build both backends from one configuration snapshot and select the
    /// current one from the provider tag. Construction never fails: missing
    /// credentials surface at call time, not here.
    pub fn from_config(config: &LLMConfig) -> (r: Self)
        ensures
            r.backends@.len() == 2,
            ({
                let gpt = r.backends@[0];
                &&& gpt matches Backend::Gpt(o)
                &&& o.model_name == config.model
                &&& o.api_key == config.api_key
                &&& (match config.base_url {
                    Some(u) => if u@.len() > 0 {
                        o.base_url matches Some(b) && b == u
                    } else {
                        o.base_url matches Some(b) && b@ == "https://api.tu-zi.com/v1"@
                    },
                    None => o.base_url matches Some(b) && b@ == "https://api.tu-zi.com/v1"@,
                })
            }),
            ({
                let gh = r.backends@[1];
                &&& gh matches Backend::GitHub(g)
                &&& g.model == config.model
                &&& g.api_token == config.github_token
                &&& g.base_url@ == "https://models.inference.ai.azure.com"@
            }),
            r.current_backend matches Some(i) && i as int == spec_initial_index(config.provider@),
    {
        let mut gpt = Openai::default();
        match &config.api_key {
            Some(key) => {
                gpt = gpt.with_api_key(key.clone());
            },
            None => {},
        }
        match &config.base_url {
            Some(url) => {
                if !url.as_str().is_empty() {
                    gpt = gpt.with_base_url(url.clone());
                }
            },
            None => {},
        }
        gpt.model_name = config.model.clone();

        let mut github = GitHubBackend::new(config.model.clone());
        match &config.github_token {
            Some(token) => {
                github = github.with_api_key(token.clone());
            },
            None => {},
        }

        let mut manager = Self::new();
        let gpt_index = manager.add_backend(Backend::Gpt(gpt));
        let github_index = manager.add_backend(Backend::GitHub(github));

        let pick_github = str_eq(config.provider.as_str(), "GitHub") || str_eq(
            config.provider.as_str(),
            "GitHubModels",
        );
        let picked = if pick_github {
            github_index
        } else {
            gpt_index
        };
        let set = manager.set_current_backend(picked);
        proof {
            assert(set is Ok);
        }
        manager
    }

    /// Register a backend and return its index. The first backend registered
    /// becomes current.
    pub fn add_backend(&mut self, backend: Backend) -> (index: usize)
        ensures
            final(self).backends@ == old(self).backends@.push(backend),
            index as int == old(self).backends@.len(),
            final(self).current_backend == (if old(self).current_backend is None {
                Some(index)
            } else {
                old(self).current_backend
            }),
    {
        let index = self.backends.len();
        self.backends.push(backend);
        if self.current_backend.is_none() {
            self.current_backend = Some(index);
        }
        index
    }

    /// Switch the current backend, bounds-checked: an out-of-range index is
    /// rejected and nothing at all changes.
    pub fn set_current_backend(&mut self, index: usize) -> (r: Result<(), IndexError>)
        ensures
            r is Ok <==> (index as int) < old(self).backends@.len(),
            r is Ok ==> final(self).current_backend == Some(index),
            r is Err ==> final(self).current_backend == old(self).current_backend,
            r is Err ==> r->Err_0 == (IndexError { index, len: old(self).backends.len() }),
            final(self).backends == old(self).backends,
    {
        if index < self.backends.len() {
            self.current_backend = Some(index);
            Ok(())
        } else {
            Err(IndexError { index, len: self.backends.len() })
        }
    }

    /// A reference to the current backend, if a valid one is selected.
    pub fn current_backend(&self) -> (r: Option<&Backend>)
        ensures
            r is Some <==> (self.current_backend matches Some(i) && (i as int)
                < self.backends@.len()),
            r matches Some(b) ==> *b == self.backends@[self.current_backend->0 as int],
    {
        match self.current_backend {
            Some(index) => {
                if index < self.backends.len() {
                    Some(&self.backends[index])
                } else {
                    None
                }
            },
            None => None,
        }
    }

    /// Every registered backend: its index, provider tag, and model name.
    pub fn list_backends(&self) -> (r: Vec<(usize, LLMProvider, String)>)
        ensures
            r@.len() == self.backends@.len(),
            forall|i: int|
                0 <= i < r@.len() ==> {
                    &&& (#[trigger] r@[i]).0 as int == i
                    &&& r@[i].1 == spec_provider(self.backends@[i])
                    &&& r@[i].2@ == spec_model_name(self.backends@[i])
                },
    {
        let mut r: Vec<(usize, LLMProvider, String)> = Vec::new();
        let mut i: usize = 0;
        while i < self.backends.len()
            invariant
                i <= self.backends@.len(),
                r@.len() == i as int,
                forall|j: int|
                    0 <= j < i as int ==> {
                        &&& (#[trigger] r@[j]).0 as int == j
                        &&& r@[j].1 == spec_provider(self.backends@[j])
                        &&& r@[j].2@ == spec_model_name(self.backends@[j])
                    },
            decreases self.backends@.len() - i as int,
        {
            let b = &self.backends[i];
            r.push((i, b.provider(), b.model_name().to_owned()));
            i = i + 1;
        }
        r
    }

    /// The backend a new call must run against: a by-value snapshot of the
    /// current backend, or `NoBackend` when none is selected. Because the
    /// call runs against this copy, switching the current backend while the
    /// call is in flight cannot affect it.
    pub fn dispatch_snapshot(&self) -> (r: Result<Backend, BackendError>)
        ensures
            r is Ok <==> (self.current_backend matches Some(i) && (i as int)
                < self.backends@.len()),
            r is Ok ==> r->Ok_0 == self.backends@[self.current_backend->0 as int],
            r is Err ==> r->Err_0 is NoBackend,
    {
        match self.current_backend() {
            Some(b) => Ok(b.snapshot()),
            None => Err(BackendError::NoBackend),
        }
    }
}

impl Default for LLMManager {
    /// A manager over the stock configuration: both backends with `gpt-4o`,
    /// no credentials yet, and the OpenAI-compatible backend current.
    fn default() -> (r: Self)
        ensures
            r.backends@.len() == 2,
            ({
                let gpt = r.backends@[0];
                &&& gpt matches Backend::Gpt(o)
                &&& o.model_name@ == "gpt-4o"@
                &&& o.api_key is None
                &&& o.base_url matches Some(b) && b@ == "https://api.tu-zi.com/v1"@
            }),
            ({
                let gh = r.backends@[1];
                &&& gh matches Backend::GitHub(g)
                &&& g.model@ == "gpt-4o"@
                &&& g.api_token is None
                &&& g.base_url@ == "https://models.inference.ai.azure.com"@
            }),
            r.current_backend == Some(0usize),
    {
        let config = LLMConfig::default();
        let manager = Self::from_config(&config);
        proof {
            reveal_strlit("GPT");
            reveal_strlit("GitHub");
            reveal_strlit("GitHubModels");
            assert("GPT"@.len() == 3);
            assert("GitHub"@.len() == 6);
            assert("GitHubModels"@.len() == 12);
            assert(spec_initial_index("GPT"@) == 0);
        }
        manager
    }
}

} // verus!
