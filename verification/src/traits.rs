//! The contracts that callers and caches meet on.
use crate::error::{outcome_view, CacheResolverError, Failure};
use std::fmt::Debug;
use std::sync::Arc;
use vstd::prelude::*;
use vstd::std_specs::cmp::PartialEqSpecImpl;

verus! {

/// A cache resolution: the value that belongs to a key, from a cache where one
/// holds it and from the computation behind it otherwise.
///
/// The owner of a cache supplies a resolver, which finds the values that the
/// cache misses; a cache is a resolver in turn. Retrieval may fail, hence the
/// `Result`.
pub trait CacheResolver<K, V> {
    /// Whether `outcome` is an answer that this resolver gives for `key`. A
    /// resolver that says nothing of its answers leaves every answer open.
    open spec fn answers(&self, key: K, outcome: Result<V, Failure>) -> bool {
        true
    }

    /// The value for `key`, or why there is none.
    fn retrieve(&self, key: K) -> (outcome: Result<V, CacheResolverError>)
        ensures
            self.answers(key, outcome_view(outcome)),
    ;
}

/// The options that a plan is made under.
#[derive(Debug, Clone, Copy, PartialEq, Eq, Hash, Structural)]
pub struct QueryPlanOptions {}

impl Default for QueryPlanOptions {
    fn default() -> (options: QueryPlanOptions)
        ensures
            options == (QueryPlanOptions {  }),
    {
        QueryPlanOptions {  }
    }
}

/// A planner key: the query, the operation where one is named, and the options.
///
/// Two keys are equal where all three parts are, and only there.
#[derive(Debug, Hash)]
pub struct QueryKey {
    /// The query.
    pub query: String,
    /// The operation of the query that is meant, where one is named.
    pub operation: Option<String>,
    /// The options that the plan is made under.
    pub options: QueryPlanOptions,
}

/// A planner key as its contracts see it.
pub struct QueryKeyView {
    /// The query.
    pub query: Seq<char>,
    /// The operation of the query that is meant, where one is named.
    pub operation: Option<Seq<char>>,
    /// The options that the plan is made under.
    pub options: QueryPlanOptions,
}

impl View for QueryKey {
    type V = QueryKeyView;

    open spec fn view(&self) -> QueryKeyView {
        QueryKeyView {
            query: self.query@,
            operation: match self.operation {
                Some(operation) => Some(operation@),
                None => None,
            },
            options: self.options,
        }
    }
}

impl PartialEq for QueryKey {
    fn eq(&self, other: &QueryKey) -> (equal: bool) {
        let operations = match (&self.operation, &other.operation) {
            (Some(mine), Some(theirs)) => mine.eq(theirs),
            (None, None) => true,
            _ => false,
        };
        self.query.eq(&other.query) && operations && self.options == other.options
    }
}

impl PartialEqSpecImpl for QueryKey {
    open spec fn obeys_eq_spec() -> bool {
        true
    }

    open spec fn eq_spec(&self, other: &QueryKey) -> bool {
        self@ == other@
    }
}

impl Eq for QueryKey {}

impl Clone for QueryKey {
    fn clone(&self) -> (copy: QueryKey)
        ensures
            copy@ == self@,
    {
        QueryKey {
            query: self.query.clone(),
            operation: match &self.operation {
                Some(operation) => Some(operation.clone()),
                None => None,
            },
            options: self.options,
        }
    }
}

/// A query planner: finds the plan for a query.
///
/// Implementations may cache plans.
pub trait QueryPlanner: Send + Sync + Debug {
    /// What a plan is.
    type Plan;

    /// How planning fails.
    type Error;

    /// Whether `outcome` is an answer that this planner gives for `key`. A planner
    /// that says nothing of its answers leaves every answer open.
    open spec fn plans(
        &self,
        key: QueryKeyView,
        outcome: Result<Arc<Self::Plan>, Self::Error>,
    ) -> bool {
        true
    }

    /// The plan for `query`, for the operation where one is named, under `options`.
    #[must_use]
    fn get(&self, query: String, operation: Option<String>, options: QueryPlanOptions) -> (outcome:
        Result<Arc<Self::Plan>, Self::Error>)
        ensures
            self.plans((QueryKey { query, operation, options })@, outcome),
    ;
}

} // verus!
