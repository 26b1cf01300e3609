use harness_capture::harness_spawn::HOOK_URL_ENV;
use harness_capture::{
    build_spawn_env, env_to_map, record_exit, record_spawn, resolve_intercept_mode, BlockStore,
    BlockType, HarnessType, HookServer, InterceptMode, ProxyHandle, ProxyManager, SessionContext,
    SpawnConfig, SpawnedSession, UpstreamConfig, INTERCEPT_MODE_ENV,
};

fn handle() -> ProxyHandle {
    ProxyHandle { port: 34567, ca_cert_path: "/ca.pem".to_string() }
}

fn pairs(env: &[(String, String)]) -> Vec<(&str, &str)> {
    env.iter().map(|(k, v)| (k.as_str(), v.as_str())).collect()
}

#[test]
fn resolve_defaults_to_full() {
    assert_eq!(INTERCEPT_MODE_ENV, "ZAP_INTERCEPT_MODE");
    assert_eq!(resolve_intercept_mode(None, None), InterceptMode::Full);
    assert_eq!(
        resolve_intercept_mode(Some(InterceptMode::Bypass), None),
        InterceptMode::Bypass
    );
}

#[test]
fn resolve_from_env() {
    assert_eq!(resolve_intercept_mode(None, Some("hooks_only")), InterceptMode::HooksOnly);
}

#[test]
fn explicit_mode_wins_and_nonsense_is_full() {
    assert_eq!(
        resolve_intercept_mode(Some(InterceptMode::Full), Some("bypass")),
        InterceptMode::Full
    );
    assert_eq!(resolve_intercept_mode(None, Some("bypass")), InterceptMode::Bypass);
    assert_eq!(resolve_intercept_mode(None, Some("full")), InterceptMode::Full);
    assert_eq!(resolve_intercept_mode(None, Some("Bypass")), InterceptMode::Full);
    assert_eq!(resolve_intercept_mode(None, Some("")), InterceptMode::Full);
}

#[test]
fn bypass_env_is_empty() {
    let env = build_spawn_env(InterceptMode::Bypass, None, None, HarnessType::ClaudeCode);
    assert!(env.is_empty());
}

#[test]
fn hooks_only_has_hook_url() {
    let env = build_spawn_env(
        InterceptMode::HooksOnly,
        None,
        Some("http://127.0.0.1:9999"),
        HarnessType::ClaudeCode,
    );
    let map = env_to_map(&env);
    assert_eq!(map.get("ZAP_HOOK_SERVER_URL").unwrap(), "http://127.0.0.1:9999");
    assert!(!map.contains_key("ANTHROPIC_BASE_URL"));
}

#[test]
fn full_without_proxy_has_hook_url() {
    let env = build_spawn_env(
        InterceptMode::Full,
        None,
        Some("http://127.0.0.1:9999"),
        HarnessType::ClaudeCode,
    );
    let map = env_to_map(&env);
    assert!(map.contains_key("ZAP_HOOK_SERVER_URL"));
    // No proxy → no ANTHROPIC_BASE_URL
    assert!(!map.contains_key("ANTHROPIC_BASE_URL"));
}

#[test]
fn full_env_has_proxy_then_hooks() {
    let h = handle();
    let url = Some("http://127.0.0.1:1");
    assert_eq!(HOOK_URL_ENV, "ZAP_HOOK_SERVER_URL");
    assert_eq!(
        pairs(&build_spawn_env(InterceptMode::Full, Some(&h), url, HarnessType::ClaudeCode)),
        vec![
            ("ANTHROPIC_BASE_URL", "https://127.0.0.1:34567"),
            ("NODE_EXTRA_CA_CERTS", "/ca.pem"),
            ("ZAP_HOOK_SERVER_URL", "http://127.0.0.1:1"),
        ]
    );
    assert_eq!(
        pairs(&build_spawn_env(InterceptMode::Full, Some(&h), None, HarnessType::Codex)),
        vec![("OPENAI_BASE_URL", "https://127.0.0.1:34567"), ("SSL_CERT_FILE", "/ca.pem")]
    );
    for t in [HarnessType::Omp, HarnessType::Generic] {
        assert_eq!(
            pairs(&build_spawn_env(InterceptMode::Full, Some(&h), None, t)),
            vec![("HTTPS_PROXY", "https://127.0.0.1:34567"), ("SSL_CERT_FILE", "/ca.pem")]
        );
        assert_eq!(
            pairs(&build_spawn_env(InterceptMode::HooksOnly, Some(&h), url, t)),
            vec![("ZAP_HOOK_SERVER_URL", "http://127.0.0.1:1")]
        );
        assert!(build_spawn_env(InterceptMode::Bypass, Some(&h), url, t).is_empty());
    }
}

#[test]
fn later_variables_count_in_the_map() {
    let pair = |k: &str, v: &str| (k.to_string(), v.to_string());
    let map = env_to_map(&[pair("A", "1"), pair("B", "2"), pair("A", "3")]);
    assert_eq!(map.get("A").unwrap(), "3");
    assert_eq!(map.get("B").unwrap(), "2");
    assert!(map.get("C").is_none());
    assert_eq!(map.len(), 2);
}

#[test]
fn spawned_session_has_its_env_as_a_map() {
    let session = SpawnedSession {
        config: SpawnConfig {
            mode: InterceptMode::Full,
            harness_type: HarnessType::Codex,
            session_id: "s".to_string(),
            upstream: UpstreamConfig::openai("https://api.openai.com"),
        },
        proxy: Some(handle()),
        hook_base_url: None,
        env: build_spawn_env(InterceptMode::Full, Some(&handle()), None, HarnessType::Codex),
    };
    assert_eq!(session.env_map().get("OPENAI_BASE_URL").unwrap(), "https://127.0.0.1:34567");
}

#[test]
fn ports_stand_in_decimal() {
    let server = HookServer { port: 0 };
    assert_eq!(server.port(), 0);
    assert_eq!(server.base_url(), "http://127.0.0.1:0");
    assert_eq!(HookServer { port: 65535 }.base_url(), "http://127.0.0.1:65535");
    let manager = ProxyManager::new("/home/u");
    let handle = manager.allocate(80);
    assert_eq!(handle.port, 80);
    assert_eq!(handle.ca_cert_path, "/home/u/.config/zap/proxy-ca/ca-cert.pem");
}

#[test]
fn lifecycle_blocks() {
    let mut store = BlockStore::open_in_memory().unwrap();
    let mut ctx = SessionContext::new("s", "aider");
    let (spawn, stored) = record_spawn(&mut store, &mut ctx, InterceptMode::HooksOnly);
    stored.unwrap();
    let (exit, stored) = record_exit(&mut store, &mut ctx, -9);
    stored.unwrap();
    assert_eq!(spawn.block_type, BlockType::Spawn);
    assert_eq!(spawn.sequence, 0);
    assert!(spawn.content.is_empty());
    assert_eq!(
        spawn.metadata.to_text().unwrap(),
        r#"{"harness_type":"aider","mode":"hooks_only"}"#
    );
    assert_eq!(exit.block_type, BlockType::Exit);
    assert_eq!(exit.sequence, 1);
    assert_eq!(exit.metadata.to_text().unwrap(), r#"{"exit_code":-9}"#);
    assert_eq!(store.list_blocks("s", None, None).unwrap(), vec![spawn, exit]);
    assert_eq!(ctx.next_seq(), 2);
}

#[test]
fn bypass_session_has_spawn_and_exit() {
    let mut store = BlockStore::open_in_memory().unwrap();
    let mut ctx = SessionContext::new("s", "aider");
    record_spawn(&mut store, &mut ctx, InterceptMode::Bypass).1.unwrap();
    record_exit(&mut store, &mut ctx, 7).1.unwrap();
    let blocks = store.list_blocks("s", None, None).unwrap();
    assert_eq!(blocks.len(), 2);
    assert_eq!((blocks[0].block_type, blocks[1].block_type), (BlockType::Spawn, BlockType::Exit));
    assert_eq!((blocks[0].sequence, blocks[1].sequence), (0, 1));
    assert_eq!(
        blocks[0].metadata.to_text().unwrap(),
        r#"{"harness_type":"aider","mode":"bypass"}"#
    );
    assert_eq!(blocks[1].metadata.to_text().unwrap(), r#"{"exit_code":7}"#);
    for b in &blocks {
        assert!(b.content.is_empty());
        assert_eq!(b.parent_id, None);
        assert_eq!(b.harness_type, "aider");
        assert!(b.timestamp > 1_600_000_000_000);
    }
}
