use llm_core::{
    Backend, BackendError, GitHubBackend, IndexError, LLMConfig, LLMManager, LLMProvider, Openai,
};

#[test]
fn test_llm_manager() {
    let mut manager = LLMManager::new();

    // register the OpenAI-compatible backend
    let gpt_backend = Backend::Gpt(Openai::default());
    let gpt_index = manager.add_backend(gpt_backend);

    // the backend list reflects it
    let backends = manager.list_backends();
    assert_eq!(backends.len(), 1);
    assert_eq!(backends[0].1, LLMProvider::GPT);

    // switching is bounds-checked
    assert!(manager.set_current_backend(gpt_index).is_ok());
    assert!(manager.set_current_backend(99).is_err());

    // a current backend is selected
    assert!(manager.current_backend().is_some());

    println!("✅ LLM Manager tests passed!");
}

#[test]
fn test_github_backend_creation() {
    // stock configuration
    let backend = GitHubBackend::default();
    assert_eq!(backend.model, "gpt-4o");
    assert_eq!(backend.base_url, "https://models.inference.ai.azure.com");
    let wrapped = Backend::GitHub(backend);
    assert_eq!(wrapped.provider(), LLMProvider::GitHub);
    assert_eq!(wrapped.model_name(), "gpt-4o");

    // custom configuration
    let custom_backend = GitHubBackend::new("gpt-3.5-turbo".to_string())
        .with_api_key("test_token".to_string())
        .with_base_url("https://custom.api.com".to_string());

    assert_eq!(custom_backend.model, "gpt-3.5-turbo");
    assert_eq!(custom_backend.api_token, Some("test_token".to_string()));
    assert_eq!(custom_backend.base_url, "https://custom.api.com");

    println!("✅ GitHub backend creation tests passed!");
}

#[test]
fn test_openai_builders() {
    let b = Openai::new("gemini-2.5-pro".to_string())
        .with_api_key("k123".to_string())
        .with_base_url("https://api.tu-zi.com/v1".to_string());
    assert_eq!(b.get_model_name(), "gemini-2.5-pro");
    assert_eq!(b.get_api_key(), Some("k123"));
    assert_eq!(b.get_base_url(), Some("https://api.tu-zi.com/v1"));

    let bare = Openai::new("m".to_string());
    assert_eq!(bare.get_api_key(), None);
    assert_eq!(bare.get_base_url(), None);

    let stock = Openai::default();
    assert_eq!(stock.get_model_name(), "gpt-4o");
    assert_eq!(stock.get_base_url(), Some("https://api.tu-zi.com/v1"));
}

#[test]
fn test_from_config_builds_both_backends() {
    let config = LLMConfig {
        provider: "GPT".to_string(),
        model: "my-model".to_string(),
        api_key: Some("key".to_string()),
        base_url: Some("".to_string()), // empty: the default gateway stays
        github_token: None,
        enable_streaming: true,
    };
    let manager = LLMManager::from_config(&config);
    let listed = manager.list_backends();
    assert_eq!(listed.len(), 2);
    assert_eq!(listed[0].1, LLMProvider::GPT);
    assert_eq!(listed[0].2, "my-model");
    assert_eq!(listed[1].1, LLMProvider::GitHub);
    assert_eq!(listed[1].2, "my-model");

    match manager.current_backend().unwrap() {
        Backend::Gpt(o) => {
            assert_eq!(o.api_key, Some("key".to_string()));
            assert_eq!(o.base_url, Some("https://api.tu-zi.com/v1".to_string()));
        }
        other => panic!("expected the OpenAI-compatible backend, got {:?}", other),
    }
}

#[test]
fn test_set_current_out_of_range_is_rejected_without_mutation() {
    let config = LLMConfig::default();
    let mut manager = LLMManager::from_config(&config);
    let before = manager.current_backend().unwrap().clone();

    let err = manager.set_current_backend(5).unwrap_err();
    assert_eq!(err, IndexError { index: 5, len: 2 });
    assert_eq!(err.message(), "Backend index 5 out of range");

    // current is unchanged
    match (manager.current_backend().unwrap(), &before) {
        (Backend::Gpt(a), Backend::Gpt(b)) => assert_eq!(a.model_name, b.model_name),
        _ => panic!("current backend changed after a rejected switch"),
    }
}

#[test]
fn test_github_models_without_token_fails_fast() {
    // construction never fails, even without a token ...
    let config = LLMConfig {
        provider: "GitHubModels".to_string(),
        model: "gpt-4o".to_string(),
        api_key: None,
        base_url: None,
        github_token: None,
        enable_streaming: true,
    };
    let manager = LLMManager::from_config(&config);
    let backend = manager.dispatch_snapshot().expect("a backend is selected");
    assert_eq!(backend.provider(), LLMProvider::GitHub);

    // ... but a send fails immediately, before any network attempt
    let err = backend.start_send().unwrap_err();
    let (chunk, error) = err;
    assert!(chunk.is_complete);
    assert!(chunk.content.starts_with("Error: GitHub token not available"));
    match error {
        BackendError::MissingCredential { detail } => {
            assert!(detail.contains("GitHub token not available"));
        }
        other => panic!("expected MissingCredential, got {:?}", other),
    }
}

#[test]
fn test_empty_manager_has_no_backend() {
    let manager = LLMManager::new();
    assert!(manager.current_backend().is_none());
    match manager.dispatch_snapshot() {
        Err(BackendError::NoBackend) => {}
        other => panic!("expected NoBackend, got {:?}", other),
    }
    assert_eq!(BackendError::NoBackend.message(), "No backend available");
}

#[test]
fn test_switch_does_not_affect_inflight_send() {
    // dispatch a call on backend 0, then switch to backend 1 mid-flight
    let config = LLMConfig {
        provider: "GPT".to_string(),
        model: "gpt-4o".to_string(),
        api_key: Some("key0".to_string()),
        base_url: None,
        github_token: Some("tok1".to_string()),
        enable_streaming: true,
    };
    let mut manager = LLMManager::from_config(&config);
    let snapshot = manager.dispatch_snapshot().unwrap();
    assert_eq!(snapshot.provider(), LLMProvider::GPT);

    let mut session = snapshot.start_send().expect("credentials are present");
    let c1 = session.on_stream_delta(Some("par".to_string())).unwrap();

    // the configuration update happens while the call is in flight
    manager.set_current_backend(1).unwrap();

    // the in-flight call still runs against the snapshot of backend 0
    assert_eq!(snapshot.provider(), LLMProvider::GPT);
    assert_eq!(snapshot.model_name(), "gpt-4o");
    let c2 = session.on_stream_delta(Some("tial".to_string())).unwrap();
    let done = session.on_stream_end();
    assert_eq!(c1.content, "par");
    assert_eq!(c2.content, "partial");
    assert_eq!(done.content, "partial");
    assert!(done.is_complete);

    // only new dispatches see the switch
    let next = manager.dispatch_snapshot().unwrap();
    assert_eq!(next.provider(), LLMProvider::GitHub);
}

#[test]
fn test_provider_names() {
    assert_eq!(LLMProvider::GPT.name(), "GPT");
    assert_eq!(LLMProvider::GitHub.name(), "GitHub");
}

#[test]
fn test_config_default_and_summary() {
    let config = LLMConfig::default();
    assert_eq!(config.provider, "GPT");
    assert_eq!(config.model, "gpt-4o");
    assert!(config.api_key.is_none());
    assert!(config.github_token.is_none());
    assert!(config.enable_streaming);
    assert_eq!(
        config.summary(),
        "提供商: GPT | 模型: gpt-4o | 流式: 启用 | API Key: 未配置 | GitHub Token: 未配置"
    );

    let configured = LLMConfig {
        provider: "GitHub".to_string(),
        model: "m".to_string(),
        api_key: Some("secret".to_string()),
        base_url: None,
        github_token: Some("tok".to_string()),
        enable_streaming: false,
    };
    let summary = configured.summary();
    assert_eq!(
        summary,
        "提供商: GitHub | 模型: m | 流式: 禁用 | API Key: 已配置 | GitHub Token: 已配置"
    );
    assert!(!summary.contains("secret"));
    assert!(!summary.contains("tok"));
}
