//! Thin, storage-agnostic shells of the domain services.
//!
//! The services are constructed lazily: a service may be built before its
//! storage backend exists and receive it later, so each holds an optional
//! storage handle, generic over the backend. Configuration is injected
//! explicitly into the services that read it, rather than looked up in
//! process-wide state. The request handling, storage I/O and transport that
//! the services drive live outside this crate.

use vstd::prelude::*;

verus! {

/// Application configuration, passed explicitly into the components that
/// need it.
pub struct AppConfig {
    /// Where the backing store lives; consumed by whatever wires a real
    /// store up at startup.
    pub database_url: String,
}

impl Default for AppConfig {
    fn default() -> (c: Self)
        ensures
            c.database_url@ == Seq::<char>::empty(),
    {
        AppConfig { database_url: String::new() }
    }
}

/// The service handling class membership.
pub struct ClassUserService<S> {
    pub storage: Option<S>,
}

impl<S> ClassUserService<S> {
    /// A service with no storage bound yet; the backend is injected later,
    /// when the store is up.
    pub fn new_lazy() -> (s: Self)
        ensures
            s.storage is None,
    {
        ClassUserService { storage: None }
    }
}

/// The service handling homework listings.
pub struct HomeworkService<S> {
    pub storage: Option<S>,
    pub config: AppConfig,
}

impl<S> HomeworkService<S> {
    /// A service with no storage bound yet and default configuration.
    pub fn new_lazy() -> (s: Self)
        ensures
            s.storage is None,
            s.config.database_url@ == Seq::<char>::empty(),
    {
        HomeworkService { storage: None, config: Default::default() }
    }

    /// The configuration this service was built with.
    pub fn get_config(&self) -> (c: &AppConfig)
        ensures
            c == &self.config,
    {
        &self.config
    }
}

/// The service answering system settings queries.
pub struct SystemService {
    pub config: AppConfig,
}

impl SystemService {
    /// A service with default configuration.
    pub fn new_lazy() -> (s: Self)
        ensures
            s.config.database_url@ == Seq::<char>::empty(),
    {
        SystemService { config: Default::default() }
    }

    /// The configuration this service was built with.
    pub fn get_config(&self) -> (c: &AppConfig)
        ensures
            c == &self.config,
    {
        &self.config
    }
}

} // verus!
