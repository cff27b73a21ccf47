//! An in-process object cache backed by moka.

use vstd::prelude::*;

verus! {

#[verifier::external_type_specification]
#[verifier::external_body]
#[verifier::reject_recursive_types(K)]
#[verifier::reject_recursive_types(V)]
#[verifier::reject_recursive_types(S)]
pub struct ExMokaFutureCache<K, V, S>(moka::future::Cache<K, V, S>);

/// A cache of serialized objects, keyed by string. The cache's contents are
/// managed entirely by moka and are opaque here; the asynchronous lookup and
/// insertion paths live with the transport layer outside this crate.
pub struct MokaCacheWrapper {
    inner: moka::future::Cache<String, String>,
}

impl MokaCacheWrapper {
    /// Relies on moka::future::Cache::builder and CacheBuilder::build: builds
    /// a cache bounded to 10 000 entries whose entries expire 900 seconds
    /// after insertion.
    #[verifier::external_body]
    pub fn new() -> Self {
        let inner = moka::future::Cache::builder()
            .max_capacity(10_000)
            .time_to_live(std::time::Duration::from_secs(900))
            .build();
        MokaCacheWrapper { inner }
    }
}

impl Default for MokaCacheWrapper {
    fn default() -> Self {
        MokaCacheWrapper::new()
    }
}

} // verus!
