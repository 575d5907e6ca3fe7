//! Service discovery, registration and client-side load balancing.
//!
//! The modules hold the decisions of a discovery mesh as verified functions: the instance model
//! and its query filters (`instance`, `tags`, `address`, `text`), the storage layouts of the
//! lease-KV and agent backends (`lease_kv`, `agent`) and of static backends (`static_backend`),
//! the reconciler that turns discovery passes into change events (`reconciler`), the registry
//! loop (`registry`), power-of-two-choices selection (`balancer`) and the factory defaults
//! (`factory`, `config`). The I/O that carries these decisions out lives outside the library.

use vstd::prelude::*;

pub mod address;
pub mod agent;
pub mod balancer;
pub mod client;
pub mod config;
pub mod error;
pub mod factory;
pub mod instance;
pub mod interceptor;
pub mod lease_kv;
pub mod middleware;
pub mod reconciler;
pub mod registry;
pub mod retry;
pub mod runtime_config;
pub mod settings;
pub mod static_backend;
pub mod tags;
pub mod text;

verus! {

} // verus!
