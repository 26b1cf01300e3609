//! Capture of agent harness sessions.
//!
//! A local proxy and hook callbacks watch an agent harness at work; what they
//! see becomes an ordered tree of typed blocks in a [`BlockStore`], and the raw
//! payloads go to a [`RawCache`].
//!
//! ```text
//!                  ┌──────────────────────────────────┐
//!   harness  ──HTTPS──▶  handler (the local proxy)    │
//!   process          │   RawEvent                     │
//!     │              └──────────────┬─────────────────┘
//!     │ hooks                       │
//!     │ (HTTP POST)                 ▼
//!     │              ┌──── raw_processor ────┐
//!     ▼              │  RawEvent → RawCache   │
//!   hook_server ──blocks──▶ BlockStore ◀──────┘
//! ```
//!
//! Sockets, files and the environment belong to the program around this
//! library: it hands over what it read and carries out what comes back.
//!
//! The modules whose names end in `_laws` state what holds of the whole: each
//! law is a proof over all inputs that its conditions admit.
use vstd::prelude::*;

pub mod block_builder;
pub mod block_laws;
pub mod ca;
pub mod capture_laws;
pub mod effect_laws;
pub mod event;
pub mod exchange_laws;
pub mod handler;
pub mod harness_spawn;
pub mod hook_server;
pub mod integration;
pub mod json;
pub mod json_laws;
pub mod manager;
pub mod migration;
pub mod operation_laws;
pub mod proxy_laws;
pub mod query;
pub mod query_laws;
pub mod raw_cache;
pub mod raw_processor;
pub mod record_laws;
pub mod request_laws;
pub mod response_laws;
pub mod schema;
pub mod session;
pub mod session_laws;
pub mod store;
pub mod store_laws;
pub mod text;
pub mod text_laws;
pub mod upstream;
pub mod view_laws;

pub use block_builder::{parse_anthropic_request, parse_anthropic_response};
pub use ca::{ensure_local_ca, LocalCA};
pub use event::{RawEvent, RAW_CHANNEL_CAPACITY};
pub use harness_spawn::{
    build_spawn_env, env_to_map, record_exit, record_spawn, resolve_intercept_mode, SpawnConfig,
    SpawnedSession, INTERCEPT_MODE_ENV,
};
pub use hook_server::HookServer;
pub use integration::Integration;
pub use json::Json;
pub use manager::{ProxyHandle, ProxyManager};
pub use query::{
    get_session_summary, get_system_prompt, list_blocks_by_session, list_blocks_by_type,
    list_child_blocks, SessionSummary,
};
pub use raw_cache::{RawCache, RawEntry};
pub use raw_processor::run_raw_processor;
pub use schema::{BlockType, HarnessBlock, InterceptMode, UnknownBlockType, UnknownInterceptMode};
pub use session::SessionContext;
pub use store::{BlockStore, StoreError};
pub use upstream::{HarnessType, ResponseFormat, UpstreamConfig};

verus! {

}
