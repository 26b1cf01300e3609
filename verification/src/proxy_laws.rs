//! Laws of the proxy: which headers go where, which upstream a harness has, and
//! how a harness reaches the proxy.
use vstd::prelude::*;
use vstd::string::*;

use crate::ca::{ExtendedUse, Issued, KeyUse, PathsView, PemFile, ProfileView, Role};
use crate::handler::{HeaderView, StreamCapture, Way};
use crate::json::JsonView;
use crate::manager::ProxyHandle;
use crate::upstream::{HarnessType, OmpConfig, OmpSource, ResponseFormat, UpstreamError, UpstreamView};

verus! {

// ── headers ──────────────────────────────────────────────────────────────

/// The headers whose name is none of `names` and whose value is text, in order.
pub open spec fn texts_beside(headers: Seq<HeaderView>, names: Set<Seq<char>>) -> Seq<
    (Seq<char>, Seq<char>),
> {
    headers.filter(|h: HeaderView| h.value is Some && !names.contains(h.name)).map_values(
        |h: HeaderView| (h.name, h.value->0),
    )
}

proof fn lemma_passed_on_beside(way: Way, headers: Seq<HeaderView>, names: Set<Seq<char>>)
    requires
        forall|name: Seq<char>| names.contains(name) <==> #[trigger] crate::handler::skipped(way, name),
    ensures
        crate::handler::passed_on(way, headers) == texts_beside(headers, names),
    decreases headers.len(),
{
    reveal(Seq::filter);
    let kept = |h: HeaderView| h.value is Some && !names.contains(h.name);
    let pair = |h: HeaderView| (h.name, h.value->0);
    if headers.len() == 0 {
        assert(texts_beside(headers, names) =~= Seq::empty());
    } else {
        let front = headers.drop_last();
        lemma_passed_on_beside(way, front, names);
        let before = front.filter(kept);
        assert(names.contains(headers.last().name) <==> crate::handler::skipped(
            way,
            headers.last().name,
        ));
        if kept(headers.last()) {
            assert(before.push(headers.last()).map_values(pair) =~= before.map_values(pair).push(
                pair(headers.last()),
            ));
        }
    }
}

/// Of the headers of a request those go to the upstream, in order, whose value
/// is text and whose name is none of `host`, `authorization`, `x-api-key`,
/// `content-length` and `connection`. Before them stands the authorization,
/// where there is a key: the header that the upstream asks for, with its prefix
/// and the key.
pub proof fn law_headers_of_an_upstream_request(
    upstream: UpstreamView,
    key: Seq<char>,
    headers: Seq<HeaderView>,
)
    ensures
        crate::handler::upstream_headers(upstream, None, headers) == texts_beside(
            headers,
            set![
                "host"@,
                "authorization"@,
                "x-api-key"@,
                "content-length"@,
                "connection"@,
            ],
        ),
        crate::handler::upstream_headers(upstream, Some(key), headers) == seq![
            (upstream.auth_header, upstream.auth_prefix + key),
        ] + texts_beside(
            headers,
            set![
                "host"@,
                "authorization"@,
                "x-api-key"@,
                "content-length"@,
                "connection"@,
            ],
        ),
{
    let names = set![
        "host"@,
        "authorization"@,
        "x-api-key"@,
        "content-length"@,
        "connection"@,
    ];
    lemma_passed_on_beside(Way::Upstream, headers, names);
    let passed = crate::handler::passed_on(Way::Upstream, headers);
    assert(Seq::<(Seq<char>, Seq<char>)>::empty() + passed =~= passed);
}

/// Every header of a request whose value is text and whose name is none of
/// `host`, `authorization`, `x-api-key`, `content-length` and `connection` is
/// among the headers of the upstream request, whatever the upstream and the key
/// are.
pub proof fn law_other_headers_reach_the_upstream(
    upstream: UpstreamView,
    key: Option<Seq<char>>,
    headers: Seq<HeaderView>,
    name: Seq<char>,
    value: Seq<char>,
)
    requires
        headers.contains((HeaderView { name, value: Some(value) })),
        name != "host"@,
        name != "authorization"@,
        name != "x-api-key"@,
        name != "content-length"@,
        name != "connection"@,
    ensures
        crate::handler::upstream_headers(upstream, key, headers).contains((name, value)),
{
    crate::handler::law_headers_pass_unless_skipped(Way::Upstream, headers, name, value);
    let passed = crate::handler::passed_on(Way::Upstream, headers);
    let all = crate::handler::upstream_headers(upstream, key, headers);
    let i = choose|i: int| 0 <= i < passed.len() && passed[i] == (name, value);
    assert(all[all.len() - passed.len() + i] == (name, value));
}

/// Of the headers of a response those go to the harness, in order, whose value
/// is text and whose name is none of `transfer-encoding`, `connection` and
/// `content-length`.
pub proof fn law_headers_of_a_response(headers: Seq<HeaderView>)
    ensures
        crate::handler::passed_on(Way::Downstream, headers) == texts_beside(
            headers,
            set!["transfer-encoding"@, "connection"@, "content-length"@],
        ),
{
    lemma_passed_on_beside(
        Way::Downstream,
        headers,
        set!["transfer-encoding"@, "connection"@, "content-length"@],
    );
}

/// Every header of a response whose value is text and whose name is none of
/// `transfer-encoding`, `connection` and `content-length` reaches the harness.
pub proof fn law_other_headers_reach_the_harness(
    headers: Seq<HeaderView>,
    name: Seq<char>,
    value: Seq<char>,
)
    requires
        headers.contains((HeaderView { name, value: Some(value) })),
        name != "transfer-encoding"@,
        name != "connection"@,
        name != "content-length"@,
    ensures
        crate::handler::passed_on(Way::Downstream, headers).contains((name, value)),
{
    crate::handler::law_headers_pass_unless_skipped(Way::Downstream, headers, name, value);
}

/// The capture sees every header of a request, and of two with one name the
/// later: what stands behind overrides what stands before.
pub proof fn law_later_headers_are_captured(a: Seq<HeaderView>, b: Seq<HeaderView>)
    ensures
        crate::handler::captured_headers(a + b) == crate::handler::captured_headers(
            a,
        ).union_prefer_right(crate::handler::captured_headers(b)),
    decreases b.len(),
{
    if b.len() == 0 {
        assert(a + b =~= a);
        assert(crate::handler::captured_headers(a).union_prefer_right(
            crate::handler::captured_headers(b),
        ) =~= crate::handler::captured_headers(a));
    } else {
        law_later_headers_are_captured(a, b.drop_last());
        assert((a + b).drop_last() =~= a + b.drop_last());
        assert(crate::handler::captured_headers(a + b) =~= crate::handler::captured_headers(
            a,
        ).union_prefer_right(crate::handler::captured_headers(b)));
    }
}

/// The capture sees a header under its name, with its value, and with an empty
/// one where the value is no text.
pub proof fn law_one_header_is_captured(name: Seq<char>, value: Seq<char>)
    ensures
        crate::handler::captured_headers(seq![HeaderView { name, value: Some(value) }]) == map![
            name => JsonView::Str(value),
        ],
        crate::handler::captured_headers(seq![HeaderView { name, value: None }]) == map![
            name => JsonView::Str(Seq::empty()),
        ],
{
    let text = seq![HeaderView { name, value: Some(value) }];
    let none = seq![HeaderView { name, value: None }];
    assert(text.drop_last() =~= Seq::empty());
    assert(none.drop_last() =~= Seq::empty());
    assert(crate::handler::captured_headers(text.drop_last()) =~= Map::empty());
    assert(crate::handler::captured_headers(text) =~= map![name => JsonView::Str(value)]);
    assert(crate::handler::captured_headers(none) =~= map![name => JsonView::Str(Seq::empty())]);
}

/// A request goes to its own path, and to the root where it has none.
pub proof fn law_path_of_a_request(path: Seq<char>)
    ensures
        crate::handler::effective_path(Some(path)) == path,
        crate::handler::effective_path(None) == seq!['/'],
{
    reveal_strlit("/");
    assert("/"@ =~= seq!['/']);
}

/// A chunk is captured with its bytes, under the identifier of its response and
/// the number of chunks before it, and leaves all but that number as it was.
pub proof fn law_capture_of_a_chunk(capture: StreamCapture, bytes: Seq<u8>)
    requires
        capture.seq < u64::MAX,
    ensures
        capture.chunk_event(bytes) == (crate::event::EventView::ResponseChunk {
            id: capture.id,
            seq: capture.seq,
            chunk: bytes,
        }),
        capture.after_chunk().seq == capture.seq + 1,
        capture.after_chunk().id == capture.id,
        capture.after_chunk().status == capture.status,
        capture.after_chunk().done == capture.done,
{
}

// ── upstreams ────────────────────────────────────────────────────────────

/// A base changes only the base: for every harness but [`HarnessType::Omp`],
/// what is resolved for an explicit or detected base has the header, prefix and
/// key variable, the request path and the response format of what is resolved
/// without one.
pub proof fn law_base_changes_only_the_base(
    harness: HarnessType,
    explicit: Option<&str>,
    detected: Option<&str>,
    omp: OmpSource,
    other: OmpSource,
)
    requires
        harness != HarnessType::Omp,
    ensures
        ({
            let based = crate::upstream::resolved(harness, explicit, detected, omp);
            let default = crate::upstream::resolved(harness, None, None, other);
            &&& based is Ok
            &&& default is Ok
            &&& based->Ok_0.auth_header == default->Ok_0.auth_header
            &&& based->Ok_0.auth_prefix == default->Ok_0.auth_prefix
            &&& based->Ok_0.api_key_env == default->Ok_0.api_key_env
            &&& based->Ok_0.request_path == default->Ok_0.request_path
            &&& based->Ok_0.response_format == default->Ok_0.response_format
        }),
{
}

/// What a harness needs of its upstream, whatever its base is: how it is
/// authorized, where requests go and in which form responses come.
pub open spec fn speaks(
    upstream: UpstreamView,
    auth_header: Seq<char>,
    auth_prefix: Seq<char>,
    api_key_env: Seq<char>,
    request_path: Seq<char>,
    response_format: ResponseFormat,
) -> bool {
    &&& upstream.auth_header == auth_header
    &&& upstream.auth_prefix == auth_prefix
    &&& upstream.api_key_env == api_key_env
    &&& upstream.request_path == request_path
    &&& upstream.response_format == response_format
}

/// Each harness but [`HarnessType::Omp`] speaks the API that it was made for,
/// with and without a base; [`HarnessType::Omp`] speaks that of Anthropic at
/// any base that is given.
pub proof fn law_api_of_each_harness(
    explicit: Option<&str>,
    detected: Option<&str>,
    omp: OmpSource,
)
    ensures
        speaks(
            crate::upstream::resolved(HarnessType::ClaudeCode, explicit, detected, omp)->Ok_0,
            "x-api-key"@,
            Seq::empty(),
            "ANTHROPIC_API_KEY"@,
            "/v1/messages"@,
            ResponseFormat::AnthropicSSE,
        ),
        speaks(
            crate::upstream::resolved(HarnessType::Codex, explicit, detected, omp)->Ok_0,
            "authorization"@,
            "Bearer "@,
            "OPENAI_API_KEY"@,
            "/v1/chat/completions"@,
            ResponseFormat::OpenAISSE,
        ),
        speaks(
            crate::upstream::resolved(HarnessType::Generic, explicit, detected, omp)->Ok_0,
            "authorization"@,
            "Bearer "@,
            "ZAP_API_KEY"@,
            "/"@,
            ResponseFormat::Generic,
        ),
        explicit is Some || detected is Some ==> speaks(
            crate::upstream::resolved(HarnessType::Omp, explicit, detected, omp)->Ok_0,
            "x-api-key"@,
            Seq::empty(),
            "ANTHROPIC_API_KEY"@,
            "/v1/messages"@,
            ResponseFormat::AnthropicSSE,
        ),
{
}

/// The base is the explicit one, else the detected one, without slashes at its
/// end; else it is that of the harness, and for [`HarnessType::Generic`] there
/// is none.
pub proof fn law_base_of_each_harness(
    harness: HarnessType,
    base: &str,
    detected: Option<&str>,
    omp: OmpSource,
)
    ensures
        crate::upstream::resolved(harness, Some(base), detected, omp) is Ok,
        crate::upstream::resolved(harness, Some(base), detected, omp)->Ok_0.api_base
            == crate::text::trim_end_char(base@, '/'),
        crate::upstream::resolved(harness, None, Some(base), omp) is Ok,
        crate::upstream::resolved(harness, None, Some(base), omp)->Ok_0.api_base
            == crate::text::trim_end_char(base@, '/'),
        crate::upstream::resolved(HarnessType::ClaudeCode, None, None, omp)->Ok_0.api_base
            == "https://api.anthropic.com"@,
        crate::upstream::resolved(HarnessType::Codex, None, None, omp)->Ok_0.api_base
            == "https://api.openai.com"@,
        crate::upstream::resolved(HarnessType::Generic, None, None, omp)->Ok_0.api_base.len() == 0,
{
}

/// Slashes at the end of a base make no difference.
pub proof fn law_trailing_slashes_make_no_difference(
    harness: HarnessType,
    base: &str,
    slashed: &str,
    omp: OmpSource,
)
    requires
        slashed@ == base@.push('/'),
    ensures
        crate::upstream::resolved(harness, Some(slashed), None, omp) == crate::upstream::resolved(
            harness,
            Some(base),
            None,
            omp,
        ),
{
    assert(slashed@.drop_last() =~= base@);
}

/// Without a base, [`HarnessType::Omp`] takes base, key variable and response
/// format from its configuration, and speaks the API of Anthropic else. It has
/// the defaults of Anthropic where there is no configuration to read, and fails
/// where there is no home directory or no configuration in the file.
pub proof fn law_configured_upstream(config: OmpConfig, why: String)
    ensures
        ({
            let upstream = crate::upstream::resolved(
                HarnessType::Omp,
                None,
                None,
                OmpSource::Config(config),
            );
            &&& upstream is Ok
            &&& upstream->Ok_0.api_base == crate::text::trim_end_char(config.api_base@, '/')
            &&& upstream->Ok_0.api_key_env == config.api_key_env@
            &&& upstream->Ok_0.auth_header == "x-api-key"@
            &&& upstream->Ok_0.auth_prefix.len() == 0
            &&& upstream->Ok_0.request_path == "/v1/messages"@
            &&& config.response_format@ == "openai"@ ==> upstream->Ok_0.response_format
                == ResponseFormat::OpenAISSE
            &&& config.response_format@ == "generic"@ ==> upstream->Ok_0.response_format
                == ResponseFormat::Generic
            &&& config.response_format@ != "openai"@ && config.response_format@ != "generic"@
                ==> upstream->Ok_0.response_format == ResponseFormat::AnthropicSSE
        }),
        crate::upstream::resolved(HarnessType::Omp, None, None, OmpSource::NoHome) == Err::<
            UpstreamView,
            _,
        >(UpstreamError::NoHome),
        crate::upstream::resolved(HarnessType::Omp, None, None, OmpSource::Malformed(why)) == Err::<
            UpstreamView,
            _,
        >(UpstreamError::Malformed(why)),
        crate::upstream::resolved(HarnessType::Omp, None, None, OmpSource::Unreadable)
            == crate::upstream::resolved(
            HarnessType::ClaudeCode,
            None,
            None,
            OmpSource::Unreadable,
        ),
{
    reveal_strlit("openai");
    reveal_strlit("generic");
    assert("openai"@.len() == 6);
    assert("generic"@.len() == 7);
}

// ── environment of a harness ─────────────────────────────────────────────

/// The variables that lead each harness through a proxy: one names the proxy on
/// this machine by its port, the other the certificate of the authority.
pub proof fn law_variables_of_each_harness(handle: ProxyHandle)
    ensures
        ({
            let url = "https://127.0.0.1:"@ + crate::text::decimal(handle.port as nat);
            let ca = handle.ca_cert_path@;
            &&& crate::manager::injected(handle, HarnessType::ClaudeCode) == seq![
                ("ANTHROPIC_BASE_URL"@, url),
                ("NODE_EXTRA_CA_CERTS"@, ca),
            ]
            &&& crate::manager::injected(handle, HarnessType::Codex) == seq![
                ("OPENAI_BASE_URL"@, url),
                ("SSL_CERT_FILE"@, ca),
            ]
            &&& crate::manager::injected(handle, HarnessType::Omp) == seq![
                ("HTTPS_PROXY"@, url),
                ("SSL_CERT_FILE"@, ca),
            ]
            &&& crate::manager::injected(handle, HarnessType::Generic) == seq![
                ("HTTPS_PROXY"@, url),
                ("SSL_CERT_FILE"@, ca),
            ]
        }),
{
}

// ── the authority ────────────────────────────────────────────────────────

/// The files of the authority stand in one directory under the home directory,
/// each under its own name.
pub proof fn law_paths_of_the_authority(home: Seq<char>)
    requires
        home.len() > 0,
        home.last() != '/',
    ensures
        crate::ca::ca_paths(home) == (PathsView {
            dir: home + "/.config/zap/proxy-ca"@,
            ca_cert_path: home + "/.config/zap/proxy-ca/ca-cert.pem"@,
            ca_key_path: home + "/.config/zap/proxy-ca/ca-key.pem"@,
            server_cert_path: home + "/.config/zap/proxy-ca/server-cert.pem"@,
            server_key_path: home + "/.config/zap/proxy-ca/server-key.pem"@,
        }),
{
    reveal_strlit(".config");
    reveal_strlit("zap");
    reveal_strlit("proxy-ca");
    reveal_strlit("/.config/zap/proxy-ca");
    let config = home + seq!['/'] + ".config"@;
    assert(crate::text::path_join(home, ".config"@) =~= config);
    assert(".config"@.last() == 'g');
    let zap = config + seq!['/'] + "zap"@;
    assert(config.last() == 'g');
    assert(crate::text::path_join(config, "zap"@) =~= zap);
    assert("zap"@.last() == 'p');
    assert(zap.last() == 'p');
    let dir = zap + seq!['/'] + "proxy-ca"@;
    assert(crate::text::path_join(zap, "proxy-ca"@) =~= dir);
    assert("proxy-ca"@.last() == 'a');
    assert(dir.last() == 'a');
    assert("/.config/zap/proxy-ca"@ =~= seq!['/'] + ".config"@ + seq!['/'] + "zap"@ + seq!['/']
        + "proxy-ca"@);
    assert(dir =~= home + "/.config/zap/proxy-ca"@);
    lemma_file_of_the_authority(home, dir);
}

proof fn lemma_file_of_the_authority(home: Seq<char>, dir: Seq<char>)
    requires
        dir == home + "/.config/zap/proxy-ca"@,
        dir.len() > 0,
        dir.last() == 'a',
    ensures
        crate::text::path_join(dir, "ca-cert.pem"@) == home
            + "/.config/zap/proxy-ca/ca-cert.pem"@,
        crate::text::path_join(dir, "ca-key.pem"@) == home + "/.config/zap/proxy-ca/ca-key.pem"@,
        crate::text::path_join(dir, "server-cert.pem"@) == home
            + "/.config/zap/proxy-ca/server-cert.pem"@,
        crate::text::path_join(dir, "server-key.pem"@) == home
            + "/.config/zap/proxy-ca/server-key.pem"@,
{
    reveal_strlit("/.config/zap/proxy-ca");
    reveal_strlit("ca-cert.pem");
    reveal_strlit("ca-key.pem");
    reveal_strlit("server-cert.pem");
    reveal_strlit("server-key.pem");
    reveal_strlit("/.config/zap/proxy-ca/ca-cert.pem");
    reveal_strlit("/.config/zap/proxy-ca/ca-key.pem");
    reveal_strlit("/.config/zap/proxy-ca/server-cert.pem");
    reveal_strlit("/.config/zap/proxy-ca/server-key.pem");
    let base = "/.config/zap/proxy-ca"@;
    assert("/.config/zap/proxy-ca/ca-cert.pem"@ =~= base + seq!['/'] + "ca-cert.pem"@);
    assert("/.config/zap/proxy-ca/ca-key.pem"@ =~= base + seq!['/'] + "ca-key.pem"@);
    assert("/.config/zap/proxy-ca/server-cert.pem"@ =~= base + seq!['/'] + "server-cert.pem"@);
    assert("/.config/zap/proxy-ca/server-key.pem"@ =~= base + seq!['/'] + "server-key.pem"@);
    assert(dir + seq!['/'] + "ca-cert.pem"@ =~= home + (base + seq!['/'] + "ca-cert.pem"@));
    assert(dir + seq!['/'] + "ca-key.pem"@ =~= home + (base + seq!['/'] + "ca-key.pem"@));
    assert(dir + seq!['/'] + "server-cert.pem"@ =~= home + (base + seq!['/'] + "server-cert.pem"@));
    assert(dir + seq!['/'] + "server-key.pem"@ =~= home + (base + seq!['/'] + "server-key.pem"@));
}

/// The authority signs certificates under its own name; the server is one that
/// is reached as `localhost` and `127.0.0.1`, and signs none.
pub proof fn law_profiles()
    ensures
        crate::ca::authority_profile() == (ProfileView {
            common_name: "Zap Local Proxy CA"@,
            alternative_names: Seq::empty(),
            role: Role::Authority,
            key_uses: seq![KeyUse::DigitalSignature, KeyUse::KeyCertSign, KeyUse::CrlSign],
            extended_uses: Seq::empty(),
        }),
        crate::ca::server_profile() == (ProfileView {
            common_name: "localhost"@,
            alternative_names: seq!["localhost"@, "127.0.0.1"@],
            role: Role::EndEntity,
            key_uses: Seq::empty(),
            extended_uses: seq![ExtendedUse::ServerAuth],
        }),
{
}

/// What is issued makes two files: the certificate under the one path, and the
/// key pair under the other.
pub proof fn law_files_of_what_is_issued(
    files: Seq<PemFile>,
    cert_path: Seq<char>,
    key_path: Seq<char>,
    issued: Issued,
)
    requires
        crate::ca::are_files_of(files, cert_path, key_path, issued),
    ensures
        files.len() == 2,
        files[0].path@ == cert_path,
        files[0].contents@ == crate::ca::certificate_pem(issued.cert()),
        files[1].path@ == key_path,
        files[1].contents@ == crate::ca::key_pem(issued.pair()),
{
}

// ── limits and names ─────────────────────────────────────────────────────

/// How large a body may be, how many events wait, and under which variables the
/// environment speaks to the proxy.
pub proof fn law_limits_and_names()
    ensures
        crate::handler::MAX_BODY_BYTES == 67_108_864,
        crate::handler::BAD_GATEWAY == 502,
        crate::event::RAW_CHANNEL_CAPACITY == 1024,
        crate::upstream::UPSTREAM_BASE_ENV@ == "ZAP_UPSTREAM_BASE"@,
        crate::harness_spawn::INTERCEPT_MODE_ENV@ == "ZAP_INTERCEPT_MODE"@,
        crate::harness_spawn::HOOK_URL_ENV@ == "ZAP_HOOK_SERVER_URL"@,
{
}

}
