use harness_capture::upstream::{
    default_key_env, omp_config_path, OmpConfig, OmpSource, UpstreamError, UPSTREAM_BASE_ENV,
};
use harness_capture::{HarnessType, ResponseFormat, UpstreamConfig};

fn config(api_base: &str, response_format: &str) -> OmpSource {
    OmpSource::Config(OmpConfig {
        api_base: api_base.to_string(),
        api_key_env: "KEY".to_string(),
        response_format: response_format.to_string(),
    })
}

#[test]
fn upstream_resolve_priority() {
    let cc = UpstreamConfig::resolve(HarnessType::ClaudeCode, None, None, OmpSource::Unreadable)
        .unwrap();
    assert_eq!(cc.api_base, "https://api.anthropic.com");
    assert_eq!(cc.auth_header, "x-api-key");
    assert_eq!(cc.response_format, ResponseFormat::AnthropicSSE);

    // Codex → openai bearer
    let cx =
        UpstreamConfig::resolve(HarnessType::Codex, None, None, OmpSource::Unreadable).unwrap();
    assert_eq!(cx.api_base, "https://api.openai.com");
    assert_eq!(cx.auth_prefix, "Bearer ");

    // explicit > default
    let ex = UpstreamConfig::resolve(
        HarnessType::ClaudeCode,
        Some("http://localhost:9999"),
        None,
        OmpSource::Unreadable,
    )
    .unwrap();
    assert_eq!(ex.api_base, "http://localhost:9999");
}

#[test]
fn explicit_beats_detected_beats_default() {
    assert_eq!(UPSTREAM_BASE_ENV, "ZAP_UPSTREAM_BASE");
    for harness in
        [HarnessType::ClaudeCode, HarnessType::Codex, HarnessType::Omp, HarnessType::Generic]
    {
        let r = UpstreamConfig::resolve(harness, Some("e//"), Some("d"), OmpSource::NoHome);
        assert_eq!(r.unwrap().api_base, "e");
        let r = UpstreamConfig::resolve(harness, None, Some("d/"), OmpSource::NoHome);
        assert_eq!(r.unwrap().api_base, "d");
        assert!(!UpstreamConfig::reads_omp_config(harness, Some("e"), None));
        assert!(!UpstreamConfig::reads_omp_config(harness, None, Some("d")));
        assert_eq!(
            UpstreamConfig::reads_omp_config(harness, None, None),
            harness == HarnessType::Omp
        );
    }
}

#[test]
fn generic_default_and_base() {
    let g =
        UpstreamConfig::resolve(HarnessType::Generic, None, None, OmpSource::Unreadable).unwrap();
    assert_eq!(g.api_base, "");
    assert_eq!(g.auth_header, "authorization");
    assert_eq!(g.auth_prefix, "Bearer ");
    assert_eq!(g.api_key_env, "ZAP_API_KEY");
    assert_eq!(g.request_path, "/");
    assert_eq!(g.response_format, ResponseFormat::Generic);
    let c = UpstreamConfig::with_base(HarnessType::Codex, "///");
    assert_eq!(c.api_base, "");
    assert_eq!(c.api_key_env, "OPENAI_API_KEY");
    assert_eq!(c.request_path, "/v1/chat/completions");
    assert_eq!(c.response_format, ResponseFormat::OpenAISSE);
    let a = UpstreamConfig::with_base(HarnessType::Omp, "http://a/b/");
    assert_eq!(a.api_base, "http://a/b");
    assert_eq!(a.api_key_env, "ANTHROPIC_API_KEY");
    assert_eq!(a.request_path, "/v1/messages");
    assert_eq!(a.auth_prefix, "");
}

#[test]
fn omp_reads_its_file() {
    let resolve = |s| UpstreamConfig::resolve(HarnessType::Omp, None, None, s);
    let c = resolve(config("http://x/", "openai")).unwrap();
    assert_eq!(c.api_base, "http://x");
    assert_eq!(c.api_key_env, "KEY");
    assert_eq!(c.response_format, ResponseFormat::OpenAISSE);
    assert_eq!(c.auth_header, "x-api-key");
    assert_eq!(c.request_path, "/v1/messages");
    let format = |name: &str| resolve(config("x", name)).unwrap().response_format;
    assert_eq!(format("generic"), ResponseFormat::Generic);
    assert_eq!(format("anthropic"), ResponseFormat::AnthropicSSE);
    assert_eq!(format(""), ResponseFormat::AnthropicSSE);
    assert_eq!(resolve(OmpSource::Unreadable).unwrap().api_base, "https://api.anthropic.com");
    assert!(matches!(resolve(OmpSource::NoHome), Err(UpstreamError::NoHome)));
    assert!(matches!(
        resolve(OmpSource::Malformed("why".to_string())),
        Err(UpstreamError::Malformed(why)) if why == "why"
    ));
    assert_eq!(default_key_env(), "ZAP_API_KEY");
    assert_eq!(omp_config_path("/home/u"), "/home/u/.config/zap/omp-upstream.json");
    assert_eq!(omp_config_path("/"), "/.config/zap/omp-upstream.json");
}
