//! A cache-resolution layer: expensive keyed computations are answered from a
//! remote key-value store where it holds them, and from a resolver otherwise.
//!
//! The crate holds the decisions of that layer and their proofs. It performs no
//! input or output: a retrieval is a small machine that names the next thing to
//! be done and is told how it went.
//!
//! - [`traits`]: the contract between a cache and its callers, and between a
//!   cache and its resolver.
//! - [`cache::protocol`]: the protocol of one retrieval, as a transition
//!   function.
//! - [`cache::retrieval`]: the machine that a driver steps through a retrieval.
//! - [`cache::world`] and [`cache::laws`]: a model of stores, codecs and
//!   resolvers, and what retrievals are proved to achieve in it.
//! - [`error`]: the failures that reach a caller.
//!
//! A driver opens a retrieval with [`Retrieval::begin`], performs the action it
//! is handed, reports the result with [`Retrieval::step`], and goes on so until
//! the action is [`Action::Return`].
pub mod cache;
pub mod error;
pub mod traits;

pub use crate::cache::protocol::{Fault, Stage};
pub use crate::cache::retrieval::{Action, Event, Retrieval};
pub use crate::error::CacheResolverError;
pub use crate::traits::{CacheResolver, QueryKey, QueryPlanOptions, QueryPlanner};
