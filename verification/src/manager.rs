//! Proxy manager: the proxy's endpoint, and the environment that leads a
//! harness through it.
use vstd::prelude::*;
use vstd::string::*;

use crate::ca::LocalCA;
use crate::text::{decimal_text, joined};
use crate::upstream::HarnessType;

verus! {

/// A running proxy, as a harness reaches it.
#[derive(Debug, Clone)]
pub struct ProxyHandle {
    pub port: u16,
    pub ca_cert_path: String,
}

/// The local proxies and their certificate authority.
#[derive(Debug, Clone)]
pub struct ProxyManager {
    pub ca: LocalCA,
}

/// The base URL of a proxy on `port`.
pub open spec fn proxy_url(port: u16) -> Seq<char> {
    "https://127.0.0.1:"@ + crate::text::decimal(port as nat)
}

/// The environment variables that lead a harness through a proxy.
pub open spec fn injected(handle: ProxyHandle, harness: HarnessType) -> Seq<
    (Seq<char>, Seq<char>),
> {
    let base = proxy_url(handle.port);
    let ca = handle.ca_cert_path@;
    match harness {
        HarnessType::ClaudeCode => seq![
            ("ANTHROPIC_BASE_URL"@, base),
            ("NODE_EXTRA_CA_CERTS"@, ca),
        ],
        HarnessType::Codex => seq![("OPENAI_BASE_URL"@, base), ("SSL_CERT_FILE"@, ca)],
        HarnessType::Omp | HarnessType::Generic => seq![
            ("HTTPS_PROXY"@, base),
            ("SSL_CERT_FILE"@, ca),
        ],
    }
}

/// The characters of environment variables.
pub open spec fn env_views(env: Seq<(&'static str, String)>) -> Seq<(Seq<char>, Seq<char>)> {
    env.map_values(|e: (&'static str, String)| (e.0@, e.1@))
}

impl ProxyManager {
    /// A manager with the authority of the given home directory.
    pub fn new(home: &str) -> (r: ProxyManager)
        ensures
            r.ca@ == crate::ca::ca_paths(home@),
    {
        ProxyManager { ca: LocalCA::in_home(home) }
    }

    /// The handle of a proxy that listens on `port`.
    pub fn allocate(&self, port: u16) -> (r: ProxyHandle)
        ensures
            r.port == port,
            r.ca_cert_path@ == self.ca@.ca_cert_path,
    {
        ProxyHandle { port, ca_cert_path: self.ca.ca_cert_path.clone() }
    }

    /// The environment variables to inject into the harness process so that
    /// its traffic goes through the local proxy.
    pub fn env_injection(handle: &ProxyHandle, harness: HarnessType) -> (r: Vec<
        (&'static str, String),
    >)
        ensures
            env_views(r@) == injected(*handle, harness),
    {
        let base = joined("https://127.0.0.1:", decimal_text(handle.port as u64).as_str());
        let ca = handle.ca_cert_path.clone();
        let mut env: Vec<(&'static str, String)> = Vec::new();
        match harness {
            HarnessType::ClaudeCode => {
                env.push(("ANTHROPIC_BASE_URL", base));
                env.push(("NODE_EXTRA_CA_CERTS", ca));
            },
            HarnessType::Codex => {
                env.push(("OPENAI_BASE_URL", base));
                env.push(("SSL_CERT_FILE", ca));
            },
            HarnessType::Omp | HarnessType::Generic => {
                env.push(("HTTPS_PROXY", base));
                env.push(("SSL_CERT_FILE", ca));
            },
        }
        assert(env_views(env@) =~= injected(*handle, harness));
        env
    }
}

/// Every harness learns of the base URL of the proxy and of its CA certificate.
pub proof fn law_proxy_env_has_url_and_certificate(handle: ProxyHandle, harness: HarnessType)
    ensures
        exists|i: int|
            0 <= i < injected(handle, harness).len() && (#[trigger] injected(handle, harness)[i]).1
                == proxy_url(handle.port),
        exists|i: int|
            0 <= i < injected(handle, harness).len() && (#[trigger] injected(handle, harness)[i]).1
                == handle.ca_cert_path@,
{
    let env = injected(handle, harness);
    assert(env[0].1 == proxy_url(handle.port));
    assert(env[1].1 == handle.ca_cert_path@);
}

}
