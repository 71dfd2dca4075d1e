//! Twin lifecycle management and policy-gated request forwarding.
//!
//! An owner publishes a model as one or more containerized services; a
//! subscriber gets a private twin instance of that model and calls it
//! through a gateway that enforces per-endpoint usage quotas. This crate
//! holds the verified core of that system: the twin status machine, the
//! provisioning and teardown sagas, the quota evaluator with its TTL
//! counter cache semantics, the port allocator, and the gateway's
//! forwarding and usage-capture decisions. The container runtime, the
//! TTL key-value store, and the relational store are external systems;
//! an unverified shell drives them and feeds their answers back into the
//! functions of this crate.

pub mod allocator;
pub mod cache;
pub mod errors;
pub mod evaluator;
pub mod gateway;
pub mod keys;
pub mod laws;
pub mod lifecycle;
pub mod names;
pub mod policy;
pub mod text;
pub mod twin;
pub mod validate;

pub use errors::AppError;
pub use errors::ErrorKind;
