//! Orchestration core of a retrieval-augmented, multi-model query gateway.
//!
//! The library routes a request to a named model configuration, rewrites the
//! raw request into schema-constrained variants, retrieves stored knowledge
//! through hybrid (vector + keyword) search, and runs declarative rule
//! evaluation over named fact collections.  Token generation, embedding
//! computation, rule matching, and template rendering are collaborators
//! reached through narrow trusted interfaces; everything the core decides is
//! verified.

pub mod builder;
pub mod chunk;
pub mod context;
pub mod decimal;
pub mod expert;
pub mod jsonval;
pub mod namemap;
pub mod object;
pub mod prompt;
pub mod refine;
pub mod route;
pub mod router;
pub mod router_builder;
pub mod router_catalog;
pub mod router_expert;
pub mod router_llm;
pub mod router_prompt;
pub mod router_rag;
pub mod router_route;
pub mod router_sessions;
pub mod router_template;
pub mod store;
pub mod template;

use vstd::prelude::*;

verus! {

/// The error kinds every operation of the core reports.
#[derive(Debug, Clone, PartialEq, Eq)]
pub enum DeepThoughtError {
    /// A required model or path was missing at construction.
    Configuration(String),
    /// An unknown route, session, template, rule-set, or fact-collection name.
    NotFound(String),
    /// A refinement response failed strict structural validation.
    Schema(String),
    /// The underlying storage failed.
    Store(String),
    /// An inference, rule, or template collaborator call failed.
    Collaborator(String),
    /// A session append would exceed the configured maximum.
    Capacity(String),
}

impl DeepThoughtError {
    /// The message carried by the error, for display by callers.
    pub fn message(&self) -> (r: String)
        ensures
            r@ == self.spec_message(),
    {
        match self {
            DeepThoughtError::Configuration(m) => m.clone(),
            DeepThoughtError::NotFound(m) => m.clone(),
            DeepThoughtError::Schema(m) => m.clone(),
            DeepThoughtError::Store(m) => m.clone(),
            DeepThoughtError::Collaborator(m) => m.clone(),
            DeepThoughtError::Capacity(m) => m.clone(),
        }
    }

    /// The message as a sequence of characters.
    pub open spec fn spec_message(&self) -> Seq<char> {
        match self {
            DeepThoughtError::Configuration(m) => m@,
            DeepThoughtError::NotFound(m) => m@,
            DeepThoughtError::Schema(m) => m@,
            DeepThoughtError::Store(m) => m@,
            DeepThoughtError::Collaborator(m) => m@,
            DeepThoughtError::Capacity(m) => m@,
        }
    }
}

} // verus!
