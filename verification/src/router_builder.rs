//! Router construction from an explicit configuration record.
//!
//! The refinement model and the default embedding model are required;
//! construction validates the whole configuration in one place and either
//! fully succeeds or fails with a configuration error.

use vstd::prelude::*;

use crate::DeepThoughtError;
use crate::router::{DeepThoughtCtxModel, DeepThoughtRouter};
use crate::store::DeepThoughtVecStore;

verus! {

/// The system prompt the refinement model is seeded with when none is
/// supplied.
pub const DEFAULT_ROUTER_SYSTEM_PROMPT: &'static str = "You are helpful assistant.";

/// The configuration a router is built from.
pub struct DeepThoughtRouterBuilder {
    /// The system prompt of the refinement model.
    pub system_prompt: String,
    /// Path of the refinement model weights; required.
    pub prompt_model: Option<String>,
    /// Path of the default embedding model weights; required.
    pub default_embed_model: Option<String>,
    /// Prefix prepended to every query before embedding.
    pub embedding_query_prefix: Option<String>,
    /// The preference name used to select among refinement variants;
    /// `balanced` when unset.
    pub query_preference: Option<String>,
    /// Root directory of the catalog store; `./catalog` when unset.
    pub catalog_path: Option<String>,
}

impl DeepThoughtRouterBuilder {
    /// Whether the configuration is valid: both required models are set.
    pub open spec fn spec_valid(&self) -> bool {
        self.prompt_model is Some && self.default_embed_model is Some
    }

    /// An empty configuration: the default system prompt, everything else
    /// unset.
    pub fn default() -> (r: Self)
        ensures
            r.system_prompt@ == DEFAULT_ROUTER_SYSTEM_PROMPT@,
            r.prompt_model is None,
            r.default_embed_model is None,
            r.embedding_query_prefix is None,
            r.query_preference is None,
            r.catalog_path is None,
    {
        DeepThoughtRouterBuilder {
            system_prompt: DEFAULT_ROUTER_SYSTEM_PROMPT.to_owned(),
            prompt_model: None,
            default_embed_model: None,
            embedding_query_prefix: None,
            query_preference: None,
            catalog_path: None,
        }
    }

    /// Set the system prompt of the refinement model.
    pub fn system_prompt(self, system_prompt: &str) -> (r: Self)
        ensures
            r.system_prompt@ == system_prompt@,
            r.prompt_model == self.prompt_model,
            r.default_embed_model == self.default_embed_model,
            r.embedding_query_prefix == self.embedding_query_prefix,
            r.query_preference == self.query_preference,
            r.catalog_path == self.catalog_path,
    {
        Self { system_prompt: system_prompt.to_owned(), ..self }
    }

    /// Set the refinement model weights path.
    pub fn prompt_model(self, prompt_model: &str) -> (r: Self)
        ensures
            r.prompt_model matches Some(p) && p@ == prompt_model@,
            r.system_prompt == self.system_prompt,
            r.default_embed_model == self.default_embed_model,
            r.embedding_query_prefix == self.embedding_query_prefix,
            r.query_preference == self.query_preference,
            r.catalog_path == self.catalog_path,
    {
        Self { prompt_model: Some(prompt_model.to_owned()), ..self }
    }

    /// Set the default embedding model weights path.
    pub fn default_embed_model(self, default_embed_model: &str) -> (r: Self)
        ensures
            r.default_embed_model matches Some(p) && p@ == default_embed_model@,
            r.system_prompt == self.system_prompt,
            r.prompt_model == self.prompt_model,
            r.embedding_query_prefix == self.embedding_query_prefix,
            r.query_preference == self.query_preference,
            r.catalog_path == self.catalog_path,
    {
        Self { default_embed_model: Some(default_embed_model.to_owned()), ..self }
    }

    /// Set the prefix prepended to every query before embedding.
    pub fn embedding_query_prefix(self, embedding_query_prefix: &str) -> (r: Self)
        ensures
            r.embedding_query_prefix matches Some(p) && p@ == embedding_query_prefix@,
            r.system_prompt == self.system_prompt,
            r.prompt_model == self.prompt_model,
            r.default_embed_model == self.default_embed_model,
            r.query_preference == self.query_preference,
            r.catalog_path == self.catalog_path,
    {
        Self { embedding_query_prefix: Some(embedding_query_prefix.to_owned()), ..self }
    }

    /// Set the catalog store's root directory.
    pub fn catalog_path(self, catalog_path: &str) -> (r: Self)
        ensures
            r.catalog_path matches Some(p) && p@ == catalog_path@,
            r.system_prompt == self.system_prompt,
            r.prompt_model == self.prompt_model,
            r.default_embed_model == self.default_embed_model,
            r.embedding_query_prefix == self.embedding_query_prefix,
            r.query_preference == self.query_preference,
    {
        Self { catalog_path: Some(catalog_path.to_owned()), ..self }
    }

    /// Select refinement variants by the balanced preference.
    pub fn balanced_preference(self) -> (r: Self)
        ensures
            r.query_preference matches Some(p) && p@ == "balanced"@,
            r.system_prompt == self.system_prompt,
            r.prompt_model == self.prompt_model,
            r.default_embed_model == self.default_embed_model,
            r.embedding_query_prefix == self.embedding_query_prefix,
            r.catalog_path == self.catalog_path,
    {
        Self { query_preference: Some("balanced".to_owned()), ..self }
    }

    /// Select refinement variants by the deterministic preference.
    pub fn deterministic_preference(self) -> (r: Self)
        ensures
            r.query_preference matches Some(p) && p@ == "deterministic"@,
            r.system_prompt == self.system_prompt,
            r.prompt_model == self.prompt_model,
            r.default_embed_model == self.default_embed_model,
            r.embedding_query_prefix == self.embedding_query_prefix,
            r.catalog_path == self.catalog_path,
    {
        Self { query_preference: Some("deterministic".to_owned()), ..self }
    }

    /// Select refinement variants by the creative preference.
    pub fn creative_preference(self) -> (r: Self)
        ensures
            r.query_preference matches Some(p) && p@ == "creative"@,
            r.system_prompt == self.system_prompt,
            r.prompt_model == self.prompt_model,
            r.default_embed_model == self.default_embed_model,
            r.embedding_query_prefix == self.embedding_query_prefix,
            r.catalog_path == self.catalog_path,
    {
        Self { query_preference: Some("creative".to_owned()), ..self }
    }

    /// Validate the whole configuration and build the router: both required
    /// models configured, the catalog store attached, or a configuration
    /// error, never a partially built object.
    pub fn build(self) -> (r: Result<DeepThoughtRouter, DeepThoughtError>)
        ensures
            r is Ok <==> self.spec_valid(),
            r matches Err(e) ==> e is Configuration,
            r matches Ok(router) ==> {
                &&& router.wf()
                &&& router.prompt_model matches Some(m) && m.path@
                    == self.prompt_model->Some_0@ && m.system_prompt@ == self.system_prompt@
                &&& router.embed_model matches Some(m) && m.path@
                    == self.default_embed_model->Some_0@
                &&& router.catalog is Some
                &&& (self.query_preference matches Some(p) ==> router.query_preference == p)
                &&& (self.query_preference is None ==> router.query_preference@ == "balanced"@)
                &&& (self.embedding_query_prefix matches Some(p)
                    ==> router.embedding_query_prefix == p)
                &&& (self.embedding_query_prefix is None
                    ==> router.embedding_query_prefix@.len() == 0)
            },
    {
        let prompt_model = match self.prompt_model {
            Some(prompt_model) => prompt_model,
            None => {
                return Err(DeepThoughtError::Configuration("Prompt model not set".to_owned()));
            },
        };
        let default_embed_model = match self.default_embed_model {
            Some(default_embed_model) => default_embed_model,
            None => {
                return Err(
                    DeepThoughtError::Configuration("Default embed model not set".to_owned()),
                );
            },
        };
        let mut router = match DeepThoughtRouter::new() {
            Ok(router) => router,
            Err(e) => {
                return Err(e);
            },
        };
        let catalog_path = match self.catalog_path {
            Some(catalog_path) => catalog_path,
            None => "./catalog".to_owned(),
        };
        let catalog = match DeepThoughtVecStore::new(catalog_path.as_str()) {
            Ok(catalog) => catalog,
            Err(e) => {
                return Err(e);
            },
        };
        router.catalog = Some(catalog);
        router.prompt_model = Some(
            DeepThoughtCtxModel::new(prompt_model.as_str(), self.system_prompt.as_str()),
        );
        match router.embed_model(default_embed_model.as_str()) {
            Ok(_) => {},
            Err(e) => {
                return Err(e);
            },
        }
        router.query_preference = match self.query_preference {
            Some(preference) => preference,
            None => "balanced".to_owned(),
        };
        match self.embedding_query_prefix {
            Some(prefix) => {
                router.embedding_query_prefix = prefix;
            },
            None => {},
        }
        Ok(router)
    }
}

} // verus!
