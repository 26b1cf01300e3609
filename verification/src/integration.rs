//! One captured session: its stores, its context, and how a harness reaches
//! its hook server and its proxy.
use vstd::prelude::*;
use vstd::string::*;

use crate::harness_spawn::{record_exit, record_spawn};
use crate::hook_server::{insert_hook_block, HookEvent, HookServer};
use crate::event::RawEvent;
use crate::json::Json;
use crate::manager::ProxyHandle;
use crate::raw_cache::RawCache;
use crate::raw_processor::{run_raw_processor, RawProcessor, Recorded};
use crate::schema::{HarnessBlock, InterceptMode};
use crate::session::{ContextView, SessionContext};
use crate::store::{BlockStore, StoreError};

verus! {

/// Orchestrator for a single captured session.
pub struct Integration {
    pub store: BlockStore,
    pub raw_cache: RawCache,
    pub context: SessionContext,
    pub processor: RawProcessor,
    pub hook_server: Option<HookServer>,
    pub proxy: Option<ProxyHandle>,
}

impl Integration {
    /// Create a new integration backed by in-memory stores.
    pub fn in_memory(session_id: &str, harness_type: &str) -> (r: Result<Integration, StoreError>)
        ensures
            match r {
                Ok(i) => {
                    &&& i.store.is_new() && i.store.has_schema()
                    &&& i.raw_cache.is_new() && i.raw_cache.has_schema()
                    &&& i.context@ == ContextView {
                        session_id: session_id@,
                        harness_type: harness_type@,
                        upcoming: 0,
                    }
                    &&& i.processor@.is_empty()
                    &&& i.hook_server is None
                    &&& i.proxy is None
                },
                Err(e) => e is Database,
            },
    {
        let store = match BlockStore::open_in_memory() {
            Ok(store) => store,
            Err(e) => {
                return Err(e);
            },
        };
        let raw_cache = match RawCache::open_in_memory() {
            Ok(cache) => cache,
            Err(e) => {
                return Err(e);
            },
        };
        Ok(
            Integration {
                store,
                raw_cache,
                context: SessionContext::new(session_id, harness_type),
                processor: RawProcessor::new(),
                hook_server: None,
                proxy: None,
            },
        )
    }

    /// Access the session context.
    pub fn ctx(&self) -> (r: &SessionContext)
        ensures
            *r == self.context,
    {
        &self.context
    }

    /// Hand the store to `f`, for read queries.
    pub fn with_store<R, F: FnOnce(&BlockStore) -> R>(&self, f: F) -> (r: R)
        requires
            f.requires((&self.store,)),
        ensures
            f.ensures((&self.store,), r),
    {
        f(&self.store)
    }

    /// The hook server came up on `port`. The first server stays (starting
    /// hooks is idempotent). Gives the server that the session uses.
    pub fn start_hooks(&mut self, port: u16) -> (r: HookServer)
        ensures
            r.port == match old(self).hook_server {
                Some(server) => server.port,
                None => port,
            },
            *final(self) == (Integration { hook_server: Some(r), ..*old(self) }),
    {
        let server = match &self.hook_server {
            Some(server) => HookServer { port: server.port },
            None => HookServer { port },
        };
        self.hook_server = Some(HookServer { port: server.port });
        server
    }

    /// Hook callback base URL, if the server is running.
    pub fn hook_url(&self) -> (r: Option<String>)
        ensures
            match self.hook_server {
                Some(server) => r is Some && r->0@ == crate::hook_server::hook_url(server.port),
                None => r is None,
            },
    {
        match &self.hook_server {
            Some(server) => Some(server.base_url()),
            None => None,
        }
    }

    /// The proxy came up at `handle`. The first proxy stays. Gives the port of
    /// the proxy that the session uses.
    pub fn start_proxy(&mut self, handle: ProxyHandle) -> (r: u16)
        ensures
            *final(self) == (Integration {
                proxy: match old(self).proxy {
                    Some(first) => Some(first),
                    None => Some(handle),
                },
                ..*old(self)
            }),
            r == final(self).proxy->0.port,
    {
        if let Some(first) = &self.proxy {
            return first.port;
        }
        let port: u16 = handle.port;
        self.proxy = Some(handle);
        port
    }

    /// Proxy port, if running.
    pub fn proxy_port(&self) -> (r: Option<u16>)
        ensures
            r == match self.proxy {
                Some(handle) => Some(handle.port),
                None => None,
            },
    {
        match &self.proxy {
            Some(handle) => Some(handle.port),
            None => None,
        }
    }

    /// Path to the proxy's CA certificate, if running.
    pub fn ca_cert_path(&self) -> (r: Option<&str>)
        ensures
            match self.proxy {
                Some(handle) => r is Some && r->0@ == handle.ca_cert_path@,
                None => r is None,
            },
    {
        match &self.proxy {
            Some(handle) => Some(handle.ca_cert_path.as_str()),
            None => None,
        }
    }

    /// Borrow the proxy handle (for env injection).
    pub fn proxy_handle(&self) -> (r: Option<&ProxyHandle>)
        ensures
            match self.proxy {
                Some(handle) => r is Some && *r->0 == handle,
                None => r is None,
            },
    {
        match &self.proxy {
            Some(handle) => Some(handle),
            None => None,
        }
    }

    /// Record the initial Spawn block.
    pub fn record_spawn(&mut self, mode: InterceptMode) -> (r: (
        HarnessBlock,
        Result<(), StoreError>,
    ))
        ensures
            crate::block_builder::stamped(
                crate::harness_spawn::spawn_draft(mode, old(self).context@.harness_type),
                old(self).context@,
                0,
                r.0@,
            ),
            only_recorded(*old(self), *final(self), r.0, r.1),
    {
        record_spawn(&mut self.store, &mut self.context, mode)
    }

    /// Record the terminal Exit block.
    pub fn record_exit(&mut self, exit_code: i32) -> (r: (HarnessBlock, Result<(), StoreError>))
        ensures
            crate::block_builder::stamped(
                crate::harness_spawn::exit_draft(exit_code),
                old(self).context@,
                0,
                r.0@,
            ),
            only_recorded(*old(self), *final(self), r.0, r.1),
    {
        record_exit(&mut self.store, &mut self.context, exit_code)
    }

    /// Record a hook callback.
    pub fn record_hook(&mut self, event: HookEvent, body: Json) -> (r: (
        HarnessBlock,
        Result<(), StoreError>,
    ))
        ensures
            crate::block_builder::stamped(
                crate::hook_server::hook_draft(event, body@),
                old(self).context@,
                0,
                r.0@,
            ),
            only_recorded(*old(self), *final(self), r.0, r.1),
    {
        insert_hook_block(&mut self.store, &mut self.context, event, body)
    }

    /// Take in events of the proxy, in order, and record the payloads that they
    /// complete.
    pub fn process(&mut self, events: Vec<RawEvent>) -> (r: Vec<Recorded>)
        ensures
            final(self).processor@ == crate::raw_processor::pending_through(
                old(self).processor@,
                crate::raw_processor::event_views(events@),
            ),
            crate::raw_processor::recorded_in_turn(
                crate::raw_processor::captures_through(
                    old(self).processor@,
                    crate::raw_processor::event_views(events@),
                ),
                r@,
                old(self).context@,
            ),
            final(self).context@ == old(self).context@.advanced(
                crate::raw_processor::blocks_in(r@),
            ),
            final(self).store.same_database(old(self).store),
            old(self).store.in_memory() ==> crate::raw_processor::all_recorded_new(
                old(self).store.table(),
                r@,
            ) && final(self).store.table() == crate::raw_processor::table_after(
                old(self).store.table(),
                r@,
            ),
            final(self).raw_cache.same_database(old(self).raw_cache),
            old(self).raw_cache.in_memory() ==> exists|times: Seq<i64>|
                crate::raw_processor::cached_at(
                    old(self).raw_cache.table(),
                    final(self).raw_cache.table(),
                    old(self).context@.session_id,
                    crate::raw_processor::captures_through(
                        old(self).processor@,
                        crate::raw_processor::event_views(events@),
                    ),
                    r@,
                    times,
                ),
            final(self).hook_server == old(self).hook_server,
            final(self).proxy == old(self).proxy,
    {
        run_raw_processor(
            events,
            &mut self.processor,
            &mut self.store,
            &mut self.raw_cache,
            &mut self.context,
        )
    }
}

/// Whether a session recorded one block and is else as it was.
pub open spec fn only_recorded(
    before: Integration,
    after: Integration,
    block: HarnessBlock,
    result: Result<(), StoreError>,
) -> bool {
    &&& after.context@ == before.context@.advanced(1)
    &&& crate::store::only_sqlite_fails(result)
    &&& crate::store::reads_back(block@)
    &&& after.store.same_database(before.store)
    &&& before.store.in_memory() ==> crate::hook_server::stored_as(
        before.store.table(),
        after.store.table(),
        block,
        result,
    )
    &&& after.raw_cache == before.raw_cache
    &&& after.processor == before.processor
    &&& after.hook_server == before.hook_server
    &&& after.proxy == before.proxy
}

}
