//! Upstream configuration per harness: an explicit base wins over a detected
//! one, and that over the default of the harness.
use vstd::prelude::*;
use vstd::string::*;

use crate::text::{path_of, same_text, without_trailing_slashes};

verus! {

#[derive(Debug, Clone, Copy, PartialEq, Eq, Structural)]
pub enum HarnessType {
    ClaudeCode,
    Codex,
    Omp,
    Generic,
}

#[derive(Debug, Clone, Copy, PartialEq, Eq, Structural)]
pub enum ResponseFormat {
    AnthropicSSE,
    OpenAISSE,
    Generic,
}

#[derive(Debug, Clone)]
pub struct UpstreamConfig {
    pub api_base: String,
    pub auth_header: String,
    pub auth_prefix: String,
    pub api_key_env: String,
    pub request_path: String,
    pub response_format: ResponseFormat,
}

/// What an [`UpstreamConfig`] says.
pub struct UpstreamView {
    pub api_base: Seq<char>,
    pub auth_header: Seq<char>,
    pub auth_prefix: Seq<char>,
    pub api_key_env: Seq<char>,
    pub request_path: Seq<char>,
    pub response_format: ResponseFormat,
}

impl View for UpstreamConfig {
    type V = UpstreamView;

    open spec fn view(&self) -> UpstreamView {
        UpstreamView {
            api_base: self.api_base@,
            auth_header: self.auth_header@,
            auth_prefix: self.auth_prefix@,
            api_key_env: self.api_key_env@,
            request_path: self.request_path@,
            response_format: self.response_format,
        }
    }
}

/// The variable that names a detected upstream base.
pub const UPSTREAM_BASE_ENV: &'static str = "ZAP_UPSTREAM_BASE";

/// The configuration file for [`HarnessType::Omp`], as read:
/// `{ "api_base": "...", "api_key_env": "...", "response_format": "anthropic"|"openai"|"generic" }`.
#[derive(Debug, Clone)]
pub struct OmpConfig {
    pub api_base: String,
    pub api_key_env: String,
    pub response_format: String,
}

/// What was found in place of the configuration file for [`HarnessType::Omp`].
#[derive(Debug, Clone)]
pub enum OmpSource {
    /// There is no home directory to look in.
    NoHome,
    /// There is no file that can be read.
    Unreadable,
    /// The file does not hold a configuration; why not.
    Malformed(String),
    /// The file holds a configuration.
    Config(OmpConfig),
}

/// Why no upstream could be resolved.
#[derive(Debug, Clone, PartialEq, Eq)]
pub enum UpstreamError {
    NoHome,
    Malformed(String),
}

/// The Anthropic API at `base`.
pub open spec fn anthropic_api(base: Seq<char>) -> UpstreamView {
    UpstreamView {
        api_base: base,
        auth_header: "x-api-key"@,
        auth_prefix: Seq::empty(),
        api_key_env: "ANTHROPIC_API_KEY"@,
        request_path: "/v1/messages"@,
        response_format: ResponseFormat::AnthropicSSE,
    }
}

/// The OpenAI API at `base`.
pub open spec fn openai_api(base: Seq<char>) -> UpstreamView {
    UpstreamView {
        api_base: base,
        auth_header: "authorization"@,
        auth_prefix: "Bearer "@,
        api_key_env: "OPENAI_API_KEY"@,
        request_path: "/v1/chat/completions"@,
        response_format: ResponseFormat::OpenAISSE,
    }
}

/// Any other API at `base`.
pub open spec fn generic_api(base: Seq<char>) -> UpstreamView {
    UpstreamView {
        api_base: base,
        auth_header: "authorization"@,
        auth_prefix: "Bearer "@,
        api_key_env: "ZAP_API_KEY"@,
        request_path: "/"@,
        response_format: ResponseFormat::Generic,
    }
}

/// The API of a harness at a given base.
pub open spec fn api_at(harness: HarnessType, base: Seq<char>) -> UpstreamView {
    let base = crate::text::trim_end_char(base, '/');
    match harness {
        HarnessType::Codex => openai_api(base),
        HarnessType::Omp | HarnessType::ClaudeCode => anthropic_api(base),
        HarnessType::Generic => generic_api(base),
    }
}

/// The response format that a configuration names; Anthropic unless it names another.
pub open spec fn format_named(name: Seq<char>) -> ResponseFormat {
    if name == "openai"@ {
        ResponseFormat::OpenAISSE
    } else if name == "generic"@ {
        ResponseFormat::Generic
    } else {
        ResponseFormat::AnthropicSSE
    }
}

/// The Anthropic API, with what the configuration file says in its place.
pub open spec fn omp_api(source: OmpSource) -> Result<UpstreamView, UpstreamError> {
    match source {
        OmpSource::NoHome => Err(UpstreamError::NoHome),
        OmpSource::Unreadable => Ok(anthropic_api("https://api.anthropic.com"@)),
        OmpSource::Malformed(why) => Err(UpstreamError::Malformed(why)),
        OmpSource::Config(c) => Ok(
            UpstreamView {
                api_base: crate::text::trim_end_char(c.api_base@, '/'),
                api_key_env: c.api_key_env@,
                response_format: format_named(c.response_format@),
                ..anthropic_api("https://api.anthropic.com"@)
            },
        ),
    }
}

/// The API of a harness where no base is given.
pub open spec fn default_api(harness: HarnessType, omp: OmpSource) -> Result<
    UpstreamView,
    UpstreamError,
> {
    match harness {
        HarnessType::ClaudeCode => Ok(anthropic_api("https://api.anthropic.com"@)),
        HarnessType::Codex => Ok(openai_api("https://api.openai.com"@)),
        HarnessType::Omp => omp_api(omp),
        HarnessType::Generic => Ok(generic_api(Seq::empty())),
    }
}

/// The API of a harness: the explicit base, else the detected base, else the default.
pub open spec fn resolved(
    harness: HarnessType,
    explicit: Option<&str>,
    detected: Option<&str>,
    omp: OmpSource,
) -> Result<UpstreamView, UpstreamError> {
    match explicit {
        Some(base) => Ok(api_at(harness, base@)),
        None => match detected {
            Some(base) => Ok(api_at(harness, base@)),
            None => default_api(harness, omp),
        },
    }
}

/// Whether a result is the one that `expected` describes.
pub open spec fn resolves_to(
    r: Result<UpstreamConfig, UpstreamError>,
    expected: Result<UpstreamView, UpstreamError>,
) -> bool {
    match r {
        Ok(config) => expected == Ok::<_, UpstreamError>(config@),
        Err(e) => expected == Err::<UpstreamView, _>(e),
    }
}

/// The name of the key variable where a configuration file leaves it out.
pub fn default_key_env() -> (r: String)
    ensures
        r@ == "ZAP_API_KEY"@,
{
    "ZAP_API_KEY".to_string()
}

/// The path of the configuration file for [`HarnessType::Omp`].
pub fn omp_config_path(home: &str) -> (r: String)
    ensures
        r@ == crate::text::path_join(
            crate::text::path_join(crate::text::path_join(home@, ".config"@), "zap"@),
            "omp-upstream.json"@,
        ),
{
    let config = path_of(home, ".config");
    let zap = path_of(config.as_str(), "zap");
    path_of(zap.as_str(), "omp-upstream.json")
}

impl UpstreamConfig {
    /// Resolve the upstream of a harness: the explicit base wins over the
    /// detected one (see [`UPSTREAM_BASE_ENV`]), and that over the default of
    /// the harness.
    pub fn resolve(
        harness: HarnessType,
        explicit: Option<&str>,
        detected: Option<&str>,
        omp: OmpSource,
    ) -> (r: Result<UpstreamConfig, UpstreamError>)
        ensures
            resolves_to(r, resolved(harness, explicit, detected, omp)),
    {
        if let Some(base) = explicit {
            return Ok(UpstreamConfig::with_base(harness, base));
        }
        if let Some(base) = detected {
            return Ok(UpstreamConfig::with_base(harness, base));
        }
        match harness {
            HarnessType::ClaudeCode => Ok(UpstreamConfig::anthropic("https://api.anthropic.com")),
            HarnessType::Codex => Ok(UpstreamConfig::openai("https://api.openai.com")),
            HarnessType::Omp => UpstreamConfig::from_omp_config(omp),
            HarnessType::Generic => {
                proof {
                    reveal_strlit("");
                    assert(""@ =~= Seq::empty());
                }
                Ok(UpstreamConfig::generic(""))
            },
        }
    }

    /// Whether resolving reads the configuration file for [`HarnessType::Omp`].
    pub fn reads_omp_config(
        harness: HarnessType,
        explicit: Option<&str>,
        detected: Option<&str>,
    ) -> (r: bool)
        ensures
            r == (harness == HarnessType::Omp && explicit is None && detected is None),
            !r ==> forall|a: OmpSource, b: OmpSource|
                resolved(harness, explicit, detected, a) == resolved(harness, explicit, detected, b),
    {
        matches!(harness, HarnessType::Omp) && explicit.is_none() && detected.is_none()
    }

    /// The API of a harness at a given base, without trailing slashes.
    pub fn with_base(harness: HarnessType, base: &str) -> (r: UpstreamConfig)
        ensures
            r@ == api_at(harness, base@),
    {
        let trimmed = without_trailing_slashes(base);
        match harness {
            HarnessType::Codex => UpstreamConfig::openai(trimmed.as_str()),
            HarnessType::Omp | HarnessType::ClaudeCode => UpstreamConfig::anthropic(
                trimmed.as_str(),
            ),
            HarnessType::Generic => UpstreamConfig::generic(trimmed.as_str()),
        }
    }

    pub fn anthropic(base: &str) -> (r: UpstreamConfig)
        ensures
            r@ == anthropic_api(base@),
    {
        UpstreamConfig {
            api_base: base.to_string(),
            auth_header: "x-api-key".to_string(),
            auth_prefix: String::new(),
            api_key_env: "ANTHROPIC_API_KEY".to_string(),
            request_path: "/v1/messages".to_string(),
            response_format: ResponseFormat::AnthropicSSE,
        }
    }

    pub fn openai(base: &str) -> (r: UpstreamConfig)
        ensures
            r@ == openai_api(base@),
    {
        UpstreamConfig {
            api_base: base.to_string(),
            auth_header: "authorization".to_string(),
            auth_prefix: "Bearer ".to_string(),
            api_key_env: "OPENAI_API_KEY".to_string(),
            request_path: "/v1/chat/completions".to_string(),
            response_format: ResponseFormat::OpenAISSE,
        }
    }

    fn generic(base: &str) -> (r: UpstreamConfig)
        ensures
            r@ == generic_api(base@),
    {
        UpstreamConfig {
            api_base: base.to_string(),
            auth_header: "authorization".to_string(),
            auth_prefix: "Bearer ".to_string(),
            api_key_env: "ZAP_API_KEY".to_string(),
            request_path: "/".to_string(),
            response_format: ResponseFormat::Generic,
        }
    }

    /// The API that the configuration file for [`HarnessType::Omp`] describes.
    pub fn from_omp_config(source: OmpSource) -> (r: Result<UpstreamConfig, UpstreamError>)
        ensures
            resolves_to(r, omp_api(source)),
    {
        match source {
            OmpSource::NoHome => Err(UpstreamError::NoHome),
            OmpSource::Malformed(why) => Err(UpstreamError::Malformed(why)),
            OmpSource::Unreadable => Ok(UpstreamConfig::anthropic("https://api.anthropic.com")),
            OmpSource::Config(omp) => {
                let mut config = UpstreamConfig::anthropic("https://api.anthropic.com");
                config.api_base = without_trailing_slashes(omp.api_base.as_str());
                config.api_key_env = omp.api_key_env;
                config.response_format = if same_text(omp.response_format.as_str(), "openai") {
                    ResponseFormat::OpenAISSE
                } else if same_text(omp.response_format.as_str(), "generic") {
                    ResponseFormat::Generic
                } else {
                    ResponseFormat::AnthropicSSE
                };
                Ok(config)
            },
        }
    }
}

// ── laws ─────────────────────────────────────────────────────────────────

/// An explicit base decides alone: what else was found makes no difference.
pub proof fn law_explicit_base_wins(
    harness: HarnessType,
    explicit: &str,
    detected_a: Option<&str>,
    detected_b: Option<&str>,
    omp_a: OmpSource,
    omp_b: OmpSource,
)
    ensures
        resolved(harness, Some(explicit), detected_a, omp_a) == resolved(
            harness,
            Some(explicit),
            detected_b,
            omp_b,
        ),
{
}

/// A detected base decides where no base is explicit, as if it were explicit.
pub proof fn law_detected_base_beats_default(
    harness: HarnessType,
    detected: &str,
    omp_a: OmpSource,
    omp_b: OmpSource,
)
    ensures
        resolved(harness, None, Some(detected), omp_a) == resolved(
            harness,
            Some(detected),
            None,
            omp_b,
        ),
{
}

/// Only a missing or malformed configuration of [`HarnessType::Omp`] fails.
pub proof fn law_resolution_fails_only_for_omp(
    harness: HarnessType,
    explicit: Option<&str>,
    detected: Option<&str>,
    omp: OmpSource,
)
    ensures
        resolved(harness, explicit, detected, omp) is Err <==> harness == HarnessType::Omp
            && explicit is None && detected is None && (omp is NoHome || omp is Malformed),
{
}

}
