//! A versioned schema-migration engine.
//!
//! The engine reconciles an immutable, ordered catalog of migration
//! definitions ([`registry`]) against a transactional store that tracks which
//! migrations have been applied ([`store`]). Pending migrations are applied
//! strictly in ascending version order, one transaction per migration, and a
//! tracking record with a content checksum is committed atomically with each
//! migration's statements ([`runner`]). The laws that the engine obeys —
//! idempotent re-invocation, strict ordering, per-migration atomicity and
//! checksum determinism — are stated and proved in [`laws`].
//!
//! The surrounding service scaffolding ([`domain`], [`cache`], [`models`])
//! holds the thin, storage-agnostic shells of the application around the
//! engine; their transport, I/O and HTTP concerns live outside this crate.

pub mod cache;
pub mod checksum;
pub mod domain;
pub mod errors;
pub mod laws;
pub mod models;
pub mod registry;
pub mod runner;
pub mod statements;
pub mod store;
