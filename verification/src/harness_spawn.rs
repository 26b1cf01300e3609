//! Harness spawn configuration: intercept-mode selection, environment
//! injection, and session lifecycle helpers.
//!
//! ## Intercept modes
//! - **Full**: the TLS proxy intercepts LLM traffic *and* hooks fire.
//! - **HooksOnly**: no proxy; capture relies solely on hook callbacks.
//! - **Bypass**: neither proxy nor hooks. Sessions still get `Spawn` and
//!   `Exit` blocks for bookkeeping.
use vstd::hash_map::StringHashMap;
use vstd::prelude::*;
use vstd::string::*;

use crate::block_builder::{Draft, DraftView};
use crate::hook_server::store_draft;
use crate::json::{put, text_json, Json, JsonView};
use crate::manager::{ProxyHandle, ProxyManager};
use crate::schema::{BlockType, HarnessBlock, InterceptMode};
use crate::session::SessionContext;
use crate::store::{BlockStore, StoreError};
use crate::upstream::{HarnessType, UpstreamConfig};

verus! {

/// Env var read to override the intercept mode at spawn time.
pub const INTERCEPT_MODE_ENV: &'static str = "ZAP_INTERCEPT_MODE";

/// The variable that tells a harness where the hook server is.
pub const HOOK_URL_ENV: &'static str = "ZAP_HOOK_SERVER_URL";

/// The effective intercept mode: the explicit one, else the one that the
/// environment names, else `Full`.
pub open spec fn effective_mode(
    explicit: Option<InterceptMode>,
    from_env: Option<Seq<char>>,
) -> InterceptMode {
    match explicit {
        Some(mode) => mode,
        None => match from_env {
            Some(name) => if name == "hooks_only"@ {
                InterceptMode::HooksOnly
            } else if name == "bypass"@ {
                InterceptMode::Bypass
            } else {
                InterceptMode::Full
            },
            None => InterceptMode::Full,
        },
    }
}

/// Resolve the effective intercept mode.
///
/// The explicit argument wins; otherwise the value of [`INTERCEPT_MODE_ENV`]
/// is consulted; defaults to `Full`.
pub fn resolve_intercept_mode(explicit: Option<InterceptMode>, from_env: Option<&str>) -> (r:
    InterceptMode)
    ensures
        r == effective_mode(
            explicit,
            match from_env {
                Some(name) => Some(name@),
                None => None,
            },
        ),
{
    if let Some(mode) = explicit {
        return mode;
    }
    if let Some(name) = from_env {
        proof {
            assert(InterceptMode::Full.name() == "full"@);
            assert(InterceptMode::HooksOnly.name() == "hooks_only"@);
            assert(InterceptMode::Bypass.name() == "bypass"@);
        }
        if let Ok(mode) = InterceptMode::from_name(name) {
            return mode;
        }
    }
    InterceptMode::Full
}

// ── environment ──────────────────────────────────────────────────────────

/// The variable that leads a harness to the hook server, where there is one.
pub open spec fn hook_env(hook_url: Option<&str>) -> Seq<(Seq<char>, Seq<char>)> {
    match hook_url {
        Some(url) => seq![("ZAP_HOOK_SERVER_URL"@, url@)],
        None => Seq::empty(),
    }
}

/// The environment of a harness: the variables of the proxy and of the hook
/// server in `Full` mode, those of the hook server in `HooksOnly` mode, and
/// none in `Bypass` mode.
pub open spec fn spawn_env(
    mode: InterceptMode,
    proxy: Option<&ProxyHandle>,
    hook_url: Option<&str>,
    harness: HarnessType,
) -> Seq<(Seq<char>, Seq<char>)> {
    match mode {
        InterceptMode::Full => (match proxy {
            Some(handle) => crate::manager::injected(*handle, harness),
            None => Seq::empty(),
        }) + hook_env(hook_url),
        InterceptMode::HooksOnly => hook_env(hook_url),
        InterceptMode::Bypass => Seq::empty(),
    }
}

fn push_hook_url(env: &mut Vec<(String, String)>, hook_url: Option<&str>)
    ensures
        crate::handler::pair_views(final(env)@) == crate::handler::pair_views(old(env)@) + hook_env(
            hook_url,
        ),
{
    let ghost before = env@;
    if let Some(url) = hook_url {
        env.push((HOOK_URL_ENV.to_string(), url.to_string()));
    }
    assert(crate::handler::pair_views(env@) =~= crate::handler::pair_views(before) + hook_env(
        hook_url,
    ));
}

/// Build the environment variables to inject into the spawned harness process.
///
/// - **Full**: proxy env vars (base URL + CA cert) + `ZAP_HOOK_SERVER_URL`.
/// - **HooksOnly**: only `ZAP_HOOK_SERVER_URL`.
/// - **Bypass**: empty.
pub fn build_spawn_env(
    mode: InterceptMode,
    proxy: Option<&ProxyHandle>,
    hook_url: Option<&str>,
    harness: HarnessType,
) -> (r: Vec<(String, String)>)
    ensures
        crate::handler::pair_views(r@) == spawn_env(mode, proxy, hook_url, harness),
{
    let mut env: Vec<(String, String)> = Vec::new();
    assert(crate::handler::pair_views(env@) =~= Seq::empty());
    match mode {
        InterceptMode::Full => {
            if let Some(handle) = proxy {
                let injected = ProxyManager::env_injection(handle, harness);
                let ghost views = crate::manager::env_views(injected@);
                let mut i: usize = 0;
                assert(views.take(0) =~= Seq::empty());
                while i < injected.len()
                    invariant
                        i <= injected@.len(),
                        views == crate::manager::env_views(injected@),
                        crate::handler::pair_views(env@) == views.take(i as int),
                    decreases injected@.len() - i,
                {
                    let pair = (injected[i].0.to_string(), injected[i].1.clone());
                    let ghost before = env@;
                    env.push(pair);
                    assert(crate::handler::pair_views(env@) =~= crate::handler::pair_views(
                        before,
                    ).push((pair.0@, pair.1@)));
                    i = i + 1;
                    assert(crate::handler::pair_views(env@) =~= views.take(i as int));
                }
                assert(views.take(views.len() as int) =~= views);
            }
            push_hook_url(&mut env, hook_url);
        },
        InterceptMode::HooksOnly => {
            push_hook_url(&mut env, hook_url);
            assert(crate::handler::pair_views(env@) =~= hook_env(hook_url));
        },
        InterceptMode::Bypass => {},
    }
    env
}

/// Variables by name; of two with one name the later counts.
pub open spec fn env_map_of(env: Seq<(String, String)>) -> Map<Seq<char>, Seq<char>>
    decreases env.len(),
{
    if env.len() == 0 {
        Map::empty()
    } else {
        env_map_of(env.drop_last()).insert(env.last().0@, env.last().1@)
    }
}

/// The values of a map by their characters.
pub open spec fn value_texts(m: Map<Seq<char>, String>) -> Map<Seq<char>, Seq<char>> {
    m.map_values(|v: String| v@)
}

/// Convert the environment into a map for easy lookup.
pub fn env_to_map(env: &[(String, String)]) -> (r: StringHashMap<String>)
    ensures
        value_texts(r@) == env_map_of(env@),
{
    let mut out: StringHashMap<String> = StringHashMap::new();
    let mut i: usize = 0;
    assert(env@.take(0) =~= Seq::empty());
    assert(value_texts(out@) =~= Map::empty());
    while i < env.len()
        invariant
            i <= env@.len(),
            value_texts(out@) == env_map_of(env@.take(i as int)),
        decreases env@.len() - i,
    {
        assert(env@.take(i + 1).drop_last() =~= env@.take(i as int));
        let ghost before = out@;
        out.insert(env[i].0.clone(), env[i].1.clone());
        assert(value_texts(out@) =~= value_texts(before).insert(
            env@[i as int].0@,
            env@[i as int].1@,
        ));
        i = i + 1;
    }
    assert(env@.take(env@.len() as int) =~= env@);
    out
}

// ── session lifecycle ────────────────────────────────────────────────────

/// What a `Spawn` block says.
pub open spec fn spawn_draft(mode: InterceptMode, harness_type: Seq<char>) -> DraftView {
    DraftView {
        block_type: BlockType::Spawn,
        content: Seq::empty(),
        metadata: JsonView::Object(
            map![
                "mode"@ => JsonView::Str(mode.name()),
                "harness_type"@ => JsonView::Str(harness_type),
            ],
        ),
    }
}

/// What an `Exit` block says.
pub open spec fn exit_draft(exit_code: i32) -> DraftView {
    DraftView {
        block_type: BlockType::Exit,
        content: Seq::empty(),
        metadata: JsonView::Object(map!["exit_code"@ => JsonView::Integer(exit_code as int)]),
    }
}

/// Record the initial `Spawn` block for a session. Gives the block, and
/// whether the store took it.
pub fn record_spawn(store: &mut BlockStore, ctx: &mut SessionContext, mode: InterceptMode) -> (r: (
    HarnessBlock,
    Result<(), StoreError>,
))
    ensures
        crate::block_builder::stamped(
            spawn_draft(mode, old(ctx)@.harness_type),
            old(ctx)@,
            0,
            r.0@,
        ),
        final(ctx)@ == old(ctx)@.advanced(1),
        crate::store::only_sqlite_fails(r.1),
        crate::store::reads_back(r.0@),
        final(store).same_database(*old(store)),
        old(store).in_memory() ==> crate::hook_server::stored_as(
            old(store).table(),
            final(store).table(),
            r.0,
            r.1,
        ),
{
    let mut entries: Vec<(String, Json)> = Vec::new();
    put(&mut entries, "mode", text_json(mode.as_str()));
    put(&mut entries, "harness_type", text_json(ctx.harness()));
    let draft = Draft {
        block_type: BlockType::Spawn,
        content: Vec::new(),
        metadata: Json::Object(entries),
    };
    assert(draft@.content =~= Seq::empty());
    store_draft(store, ctx, draft)
}

/// Record the terminal `Exit` block for a session. Gives the block, and
/// whether the store took it.
pub fn record_exit(store: &mut BlockStore, ctx: &mut SessionContext, exit_code: i32) -> (r: (
    HarnessBlock,
    Result<(), StoreError>,
))
    ensures
        crate::block_builder::stamped(exit_draft(exit_code), old(ctx)@, 0, r.0@),
        final(ctx)@ == old(ctx)@.advanced(1),
        crate::store::only_sqlite_fails(r.1),
        crate::store::reads_back(r.0@),
        final(store).same_database(*old(store)),
        old(store).in_memory() ==> crate::hook_server::stored_as(
            old(store).table(),
            final(store).table(),
            r.0,
            r.1,
        ),
{
    let mut entries: Vec<(String, Json)> = Vec::new();
    put(&mut entries, "exit_code", Json::Signed(exit_code as i64));
    let draft = Draft {
        block_type: BlockType::Exit,
        content: Vec::new(),
        metadata: Json::Object(entries),
    };
    assert(draft@.content =~= Seq::empty());
    store_draft(store, ctx, draft)
}

/// Configuration for spawning a captured harness session.
#[derive(Debug, Clone)]
pub struct SpawnConfig {
    pub mode: InterceptMode,
    pub harness_type: HarnessType,
    pub session_id: String,
    pub upstream: UpstreamConfig,
}

/// A session that has been wired up with proxy and hooks (if applicable).
#[derive(Debug, Clone)]
pub struct SpawnedSession {
    pub config: SpawnConfig,
    pub proxy: Option<ProxyHandle>,
    pub hook_base_url: Option<String>,
    pub env: Vec<(String, String)>,
}

impl SpawnedSession {
    /// Convenience: env as a map.
    pub fn env_map(&self) -> (r: StringHashMap<String>)
        ensures
            value_texts(r@) == env_map_of(self.env@),
    {
        env_to_map(self.env.as_slice())
    }
}

// ── laws ─────────────────────────────────────────────────────────────────

/// In `Bypass` mode a harness gets no variable at all.
pub proof fn law_bypass_injects_nothing(
    proxy: Option<&ProxyHandle>,
    hook_url: Option<&str>,
    harness: HarnessType,
)
    ensures
        spawn_env(InterceptMode::Bypass, proxy, hook_url, harness).len() == 0,
{
}

/// In `HooksOnly` mode a harness learns of the hook server alone, whatever
/// proxy there is; so it does in `Full` mode without a proxy.
pub proof fn law_hooks_need_no_proxy(
    proxy: Option<&ProxyHandle>,
    hook_url: Option<&str>,
    harness: HarnessType,
)
    ensures
        spawn_env(InterceptMode::HooksOnly, proxy, hook_url, harness) == hook_env(hook_url),
        spawn_env(InterceptMode::Full, None, hook_url, harness) == hook_env(hook_url),
{
    assert(Seq::<(Seq<char>, Seq<char>)>::empty() + hook_env(hook_url) =~= hook_env(hook_url));
}

/// In `Full` mode a harness learns of the proxy and of the hook server.
pub proof fn law_full_mode_has_both(proxy: ProxyHandle, hook_url: &str, harness: HarnessType)
    ensures
        spawn_env(InterceptMode::Full, Some(&proxy), Some(hook_url), harness)
            == crate::manager::injected(proxy, harness).push(("ZAP_HOOK_SERVER_URL"@, hook_url@)),
{
    assert(spawn_env(InterceptMode::Full, Some(&proxy), Some(hook_url), harness)
        =~= crate::manager::injected(proxy, harness).push(("ZAP_HOOK_SERVER_URL"@, hook_url@)));
}

/// The map of an environment has the variables that the environment has.
pub proof fn law_env_map_has_each_variable(env: Seq<(String, String)>, name: Seq<char>)
    ensures
        env_map_of(env).contains_key(name) <==> exists|i: int|
            0 <= i < env.len() && (#[trigger] env[i]).0@ == name,
    decreases env.len(),
{
    if env.len() > 0 {
        let front = env.drop_last();
        law_env_map_has_each_variable(front, name);
        if env_map_of(env).contains_key(name) {
            if env.last().0@ == name {
                assert(env[env.len() - 1].0@ == name);
            } else {
                let i = choose|i: int| 0 <= i < front.len() && (#[trigger] front[i]).0@ == name;
                assert(env[i].0@ == name);
            }
        }
        if exists|i: int| 0 <= i < env.len() && (#[trigger] env[i]).0@ == name {
            let i = choose|i: int| 0 <= i < env.len() && (#[trigger] env[i]).0@ == name;
            if i < front.len() {
                assert(front[i].0@ == name);
            }
        }
    }
}

}
