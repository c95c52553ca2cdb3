//! The top-level facade: the route table, the session table, one shared
//! default embedding model, one shared refinement model, one shared catalog
//! knowledge store, and the rule-evaluation registries.
//!
//! The router owns every contained entity exclusively.  Registration
//! replaces silently (last write wins); lookups and removals of unknown
//! names fail with a not-found error.

use vstd::prelude::*;

use crate::DeepThoughtError;
use crate::context::DeepThoughtContext;
use crate::namemap::NameMap;
use crate::object::fresh_id;
use crate::route::{DEFAULT_BATCH_SIZE, DEFAULT_CONTEXT_LENGTH, DeepThought, ModelConfig};
use crate::store::DeepThoughtVecStore;

verus! {

/// The configuration of a model driven against caller-supplied contexts,
/// as the refinement model is.
pub struct DeepThoughtCtxModel {
    /// Path of the model weights.
    pub path: String,
    /// The system prompt the model's conversation starts with.
    pub system_prompt: String,
    /// Model context length (in tokens) used during inference.
    pub context_length: usize,
    /// Batch size used during inference.
    pub batch_size: usize,
}

impl DeepThoughtCtxModel {
    /// A context-model configuration over the weights at `path`.
    pub fn new(path: &str, system_prompt: &str) -> (r: Self)
        ensures
            r.path@ == path@,
            r.system_prompt@ == system_prompt@,
            r.context_length == DEFAULT_CONTEXT_LENGTH,
            r.batch_size == DEFAULT_BATCH_SIZE,
    {
        DeepThoughtCtxModel {
            path: path.to_owned(),
            system_prompt: system_prompt.to_owned(),
            context_length: DEFAULT_CONTEXT_LENGTH,
            batch_size: DEFAULT_BATCH_SIZE,
        }
    }
}

/// The router: every registry, the shared models, and the catalog.
pub struct DeepThoughtRouter {
    /// The route table.
    pub routes: NameMap<DeepThought>,
    /// The table of context-model routes.
    pub ctx_routes: NameMap<DeepThoughtCtxModel>,
    /// The session table.
    pub sessions: NameMap<DeepThoughtContext>,
    /// The named fact collections of the rule-evaluation adapter.
    pub facts: NameMap<rust_rule_engine::Facts>,
    /// The named rule sets of the rule-evaluation adapter.
    pub rules: NameMap<Vec<rust_rule_engine::Rule>>,
    /// The shared default embedding model, once configured.
    pub embed_model: Option<ModelConfig>,
    /// The shared refinement model, once configured.
    pub prompt_model: Option<DeepThoughtCtxModel>,
    /// The shared catalog knowledge store, once configured.
    pub catalog: Option<DeepThoughtVecStore>,
    /// The preference name used to select among refinement variants.
    pub query_preference: String,
    /// Prefix prepended to every query before embedding.
    pub embedding_query_prefix: String,
    /// The name the rule engine's knowledge base is created under.
    pub knowledge_base_name: String,
}

impl DeepThoughtRouter {
    /// Well-formedness: every registry is well-formed, every registered
    /// route is well-formed, and the catalog, when present, is well-formed.
    pub open spec fn wf(&self) -> bool {
        &&& self.routes.wf()
        &&& self.ctx_routes.wf()
        &&& self.sessions.wf()
        &&& self.facts.wf()
        &&& self.rules.wf()
        &&& forall|k: Seq<char>|
            (#[trigger] self.routes.spec_get(k)) matches Some(rt) ==> rt.wf()
        &&& forall|k: Seq<char>|
            (#[trigger] self.rules.spec_get(k)) matches Some(rs)
                ==> crate::expert::rules_all_ascii(rs@)
        &&& match self.catalog {
            Some(c) => c.wf(),
            None => true,
        }
    }

    /// An empty router: no routes, no sessions, no models, no catalog, the
    /// balanced preference.
    pub fn new() -> (r: Result<Self, DeepThoughtError>)
        ensures
            r matches Ok(router) ==> {
                &&& router.wf()
                &&& forall|k: Seq<char>| (#[trigger] router.routes.spec_get(k)) is None
                &&& forall|k: Seq<char>| (#[trigger] router.ctx_routes.spec_get(k)) is None
                &&& forall|k: Seq<char>| (#[trigger] router.sessions.spec_get(k)) is None
                &&& forall|k: Seq<char>| (#[trigger] router.facts.spec_get(k)) is None
                &&& forall|k: Seq<char>| (#[trigger] router.rules.spec_get(k)) is None
                &&& router.embed_model is None
                &&& router.prompt_model is None
                &&& router.catalog is None
                &&& router.query_preference@ == "balanced"@
                &&& router.embedding_query_prefix@.len() == 0
            },
            r is Ok,
    {
        Ok(
            DeepThoughtRouter {
                routes: NameMap::new(),
                ctx_routes: NameMap::new(),
                sessions: NameMap::new(),
                facts: NameMap::new(),
                rules: NameMap::new(),
                embed_model: None,
                prompt_model: None,
                catalog: None,
                query_preference: "balanced".to_owned(),
                embedding_query_prefix: String::new(),
                knowledge_base_name: fresh_id(),
            },
        )
    }

    /// Configure the shared default embedding model.
    pub fn embed_model(&mut self, gguf_model: &str) -> (r: Result<(), DeepThoughtError>)
        requires
            old(self).wf(),
        ensures
            r is Ok,
            final(self).wf(),
            final(self).embed_model matches Some(m) && m.path@ == gguf_model@,
            final(self).routes == old(self).routes,
            final(self).ctx_routes == old(self).ctx_routes,
            final(self).sessions == old(self).sessions,
            final(self).facts == old(self).facts,
            final(self).rules == old(self).rules,
            final(self).prompt_model == old(self).prompt_model,
            final(self).catalog == old(self).catalog,
            final(self).query_preference == old(self).query_preference,
            final(self).embedding_query_prefix == old(self).embedding_query_prefix,
    {
        self.embed_model = Some(
            ModelConfig {
                path: gguf_model.to_owned(),
                system_prompt: crate::route::DEFAULT_ROUTE_SYSTEM_PROMPT.to_owned(),
                context_length: DEFAULT_CONTEXT_LENGTH,
                batch_size: DEFAULT_BATCH_SIZE,
            },
        );
        Ok(())
    }
}

} // verus!
