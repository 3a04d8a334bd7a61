//! What the API's handlers share.

use std::num::NonZeroU32;
use std::sync::Arc;

use governor::clock::DefaultClock;
use governor::state::keyed::DashMapStateStore;
use governor::{Quota, RateLimiter};
use vstd::prelude::*;

verus! {

/// A rate limiter that counts each key by itself.
#[verifier::external_body]
#[derive(Debug)]
pub struct KeyedRateLimiter {
    inner: RateLimiter<String, DashMapStateStore<String>, DefaultClock>,
}

/// How many requests a minute a limiter was made to let pass for each key, all
/// of which may come at once.
pub uninterp spec fn requests_per_minute(limiter: KeyedRateLimiter) -> u32;

/// `governor::RateLimiter::dashmap` with the quota of
/// `governor::Quota::per_minute`: the limiter lets `limit` requests a minute pass
/// for each key. What it answers at a given moment depends on the clock, and is
/// left unsaid.
#[verifier::external_body]
fn limiter_per_minute(limit: u32) -> (r: KeyedRateLimiter)
    requires
        limit > 0,
    ensures
        requests_per_minute(r) == limit,
{
    let quota = Quota::per_minute(NonZeroU32::new(limit).unwrap());
    KeyedRateLimiter { inner: RateLimiter::dashmap(quota) }
}

impl KeyedRateLimiter {
    /// `governor::RateLimiter::check_key`: whether a request for `key` may pass now;
    /// one that may is counted. The answer depends on the clock and on what was asked
    /// before, and nothing is said of it.
    #[verifier::external_body]
    pub fn check_key(&self, key: &String) -> (r: bool) {
        self.inner.check_key(key).is_ok()
    }
}

/// Requests allowed per tenant per minute.
pub const TENANT_LIMIT_PER_MINUTE: u32 = 600;

/// Requests allowed per client IP per minute before authentication.
pub const IP_LIMIT_PER_MINUTE: u32 = 120;

/// What the API's handlers share: the connections to the stores, the
/// configuration and the rate limiters.
#[derive(Clone)]
pub struct AppState<Pool, Publisher, BlobStore, Config, Kv, Processor> {
    pub pool: Pool,
    pub publisher: Arc<Publisher>,
    pub blob_store: Arc<BlobStore>,
    pub config: Arc<Config>,
    pub rate_limiter: Arc<KeyedRateLimiter>,
    /// Pre-auth limiter keyed by client IP; guards token brute force and
    /// unauthenticated endpoints.
    pub ip_rate_limiter: Arc<KeyedRateLimiter>,
    pub kv: Option<Kv>,
    /// Same callback that SMTP DATA completion uses. `None` when the API process
    /// runs without the inbound pipeline.
    pub inbound_processor: Option<Processor>,
}

impl<Pool, Publisher, BlobStore, Config, Kv, Processor> AppState<
    Pool,
    Publisher,
    BlobStore,
    Config,
    Kv,
    Processor,
> {
    /// A state without key-value store and without inbound pipeline.
    pub fn new(pool: Pool, publisher: Publisher, blob_store: BlobStore, config: Config) -> (r: Self)
        ensures
            r.pool == pool,
            *r.publisher == publisher,
            *r.blob_store == blob_store,
            *r.config == config,
            requests_per_minute(*r.rate_limiter) == TENANT_LIMIT_PER_MINUTE,
            requests_per_minute(*r.ip_rate_limiter) == IP_LIMIT_PER_MINUTE,
            r.kv is None,
            r.inbound_processor is None,
    {
        AppState {
            pool,
            publisher: Arc::new(publisher),
            blob_store: Arc::new(blob_store),
            config: Arc::new(config),
            rate_limiter: Arc::new(limiter_per_minute(TENANT_LIMIT_PER_MINUTE)),
            ip_rate_limiter: Arc::new(limiter_per_minute(IP_LIMIT_PER_MINUTE)),
            kv: None,
            inbound_processor: None,
        }
    }

    /// The state with a key-value store.
    pub fn with_kv(self, kv: Kv) -> (r: Self)
        ensures
            r == (AppState { kv: Some(kv), ..self }),
    {
        AppState { kv: Some(kv), ..self }
    }

    /// The state with an inbound pipeline.
    pub fn with_inbound_processor(self, processor: Processor) -> (r: Self)
        ensures
            r == (AppState { inbound_processor: Some(processor), ..self }),
    {
        AppState { inbound_processor: Some(processor), ..self }
    }
}

/// A state that is new holds what it was made of, lets 600 requests a minute pass for each
/// tenant and 120 for each client, and has neither store nor pipeline.
pub proof fn new_state_holds_what_it_was_made_of<Pool, Publisher, BlobStore, Config, Kv, Processor>(
    pool: Pool,
    publisher: Publisher,
    blob_store: BlobStore,
    config: Config,
    r: AppState<Pool, Publisher, BlobStore, Config, Kv, Processor>,
)
    requires
        call_ensures(
            AppState::<Pool, Publisher, BlobStore, Config, Kv, Processor>::new,
            (pool, publisher, blob_store, config),
            r,
        ),
    ensures
        r.pool == pool && *r.publisher == publisher && *r.blob_store == blob_store && *r.config
            == config,
        requests_per_minute(*r.rate_limiter) == 600,
        requests_per_minute(*r.ip_rate_limiter) == 120,
        r.kv is None && r.inbound_processor is None,
{
}

/// A store and a pipeline are added one at a time: neither takes the place of the other,
/// in whatever order they come, and all else stays.
pub proof fn store_and_pipeline_are_added<Pool, Publisher, BlobStore, Config, Kv, Processor>(
    state: AppState<Pool, Publisher, BlobStore, Config, Kv, Processor>,
    kv: Kv,
    processor: Processor,
    with_kv: AppState<Pool, Publisher, BlobStore, Config, Kv, Processor>,
    with_both: AppState<Pool, Publisher, BlobStore, Config, Kv, Processor>,
    with_processor: AppState<Pool, Publisher, BlobStore, Config, Kv, Processor>,
    other_way: AppState<Pool, Publisher, BlobStore, Config, Kv, Processor>,
)
    requires
        call_ensures(
            AppState::<Pool, Publisher, BlobStore, Config, Kv, Processor>::with_kv,
            (state, kv),
            with_kv,
        ),
        call_ensures(
            AppState::<Pool, Publisher, BlobStore, Config, Kv, Processor>::with_inbound_processor,
            (with_kv, processor),
            with_both,
        ),
        call_ensures(
            AppState::<Pool, Publisher, BlobStore, Config, Kv, Processor>::with_inbound_processor,
            (state, processor),
            with_processor,
        ),
        call_ensures(
            AppState::<Pool, Publisher, BlobStore, Config, Kv, Processor>::with_kv,
            (with_processor, kv),
            other_way,
        ),
    ensures
        with_both == other_way,
        with_both.kv == Some(kv) && with_both.inbound_processor == Some(processor),
        with_both.pool == state.pool && with_both.publisher == state.publisher
            && with_both.blob_store == state.blob_store && with_both.config == state.config,
        with_both.rate_limiter == state.rate_limiter && with_both.ip_rate_limiter
            == state.ip_rate_limiter,
        with_kv.kv == Some(kv) && with_kv.inbound_processor == state.inbound_processor,
        with_processor.inbound_processor == Some(processor) && with_processor.kv == state.kv,
{
}

} // verus!
