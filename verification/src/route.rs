//! A route: one chat model configuration, an optional embedding model
//! configuration, an optional knowledge store, and the conversation context
//! the route's chat history lives in.
//!
//! Loading model weights and running inference belong to the inference
//! collaborator; a route carries everything the collaborator needs (paths,
//! system prompt, context and batch sizes) and owns the verified state
//! around it.  Every embedding-dependent operation fails when no embedding
//! model is configured.

use vstd::prelude::*;

use crate::DeepThoughtError;
use crate::context::DeepThoughtContext;
use crate::object::{DeepThoughtObject, fresh_id};
use crate::chunk::chunk_count;
use crate::store::{ChunkPlan, DeepThoughtVecStore, RawHit, embed_text};
use vstd::string::StringExecFns;
use crate::template::rendered;

verus! {

/// Model context length (in tokens) used during inference.
pub const DEFAULT_CONTEXT_LENGTH: usize = 4096 * 4;

/// Batch size used during inference.
pub const DEFAULT_BATCH_SIZE: usize = 4096 * 4;

/// The system prompt a route's chat model is seeded with.
pub const DEFAULT_ROUTE_SYSTEM_PROMPT: &'static str = "You are the robot!";

/// Everything the inference collaborator needs to load and drive one model.
pub struct ModelConfig {
    /// Path of the model weights.
    pub path: String,
    /// The system prompt the model's conversation starts with.
    pub system_prompt: String,
    /// Model context length (in tokens) used during inference.
    pub context_length: usize,
    /// Batch size used during inference.
    pub batch_size: usize,
}

/// The texts a query run needs from the collaborators, bundled per result.
pub struct RagBundle {
    /// The query text.
    pub query: String,
    /// One rendered context string per retrieved neighbor, in result order.
    pub rag: Vec<String>,
}

/// Why one templated query failed: the template was missing while there was
/// a surviving neighbor to render, or the template engine failed on one of
/// the surviving neighbors.
pub open spec fn templated_query_err(
    s: DeepThoughtVecStore,
    raw: Seq<crate::store::RawHit>,
    template_name: Seq<char>,
    e: crate::DeepThoughtError,
) -> bool {
    let f = s.filter_hits(raw);
    let count = if f.len() <= s.spec_k() {
        f.len() as int
    } else {
        s.spec_k() as int
    };
    ||| (e is NotFound && s.spec_templates().spec_get(template_name) is None && count > 0)
    ||| (e is Collaborator && s.spec_templates().spec_get(template_name) is Some && (exists|
        i: int,
    |
        0 <= i < count && rendered(
            s.spec_templates().spec_get(template_name)->Some_0@,
            crate::store::output_context_of(s, #[trigger] f[i]),
        ) is None))
}

/// A named model endpoint: chat model, optional embedder, optional
/// knowledge store, and per-route chunking and prefix configuration.
pub struct DeepThought {
    /// Root directory of the route's storage.
    pub dbpath: String,
    /// The chat model configuration.
    pub model: ModelConfig,
    /// The embedding model configuration, if one is set.
    pub embed_model: Option<ModelConfig>,
    /// Prefix prepended to every document before embedding.
    pub embedding_doc_prefix: String,
    /// Prefix prepended to every query before embedding.
    pub embedding_query_prefix: String,
    /// The route's knowledge store, if one is configured.
    pub vecstore: Option<DeepThoughtVecStore>,
    /// The conversation context the route's chat history lives in.
    pub context: DeepThoughtContext,
}

impl DeepThought {
    /// The route's knowledge store, if one is configured.
    pub open spec fn spec_vecstore(&self) -> Option<DeepThoughtVecStore> {
        self.vecstore
    }

    /// The route's conversation context.
    pub open spec fn spec_context(&self) -> DeepThoughtContext {
        self.context
    }

    /// Well-formedness: the knowledge store, when present, is well-formed.
    pub open spec fn wf(&self) -> bool {
        match self.spec_vecstore() {
            Some(s) => s.wf(),
            None => true,
        }
    }

    /// A route over the chat model at `gguf_model`, with no embedder and no
    /// knowledge store yet.
    pub fn new(gguf_model: &str) -> (r: Result<Self, DeepThoughtError>)
        ensures
            r matches Ok(dt) ==> {
                &&& dt.wf()
                &&& dt.model.path@ == gguf_model@
                &&& dt.model.system_prompt@ == DEFAULT_ROUTE_SYSTEM_PROMPT@
                &&& dt.model.context_length == DEFAULT_CONTEXT_LENGTH
                &&& dt.model.batch_size == DEFAULT_BATCH_SIZE
                &&& dt.embed_model is None
                &&& dt.spec_vecstore() is None
                &&& dt.embedding_doc_prefix@.len() == 0
                &&& dt.embedding_query_prefix@.len() == 0
                &&& dt.spec_context().spec_messages().len() == 1
            },
            r is Ok,
    {
        let context = match DeepThoughtContext::init(DEFAULT_ROUTE_SYSTEM_PROMPT) {
            Ok(c) => c,
            Err(e) => {
                return Err(e);
            },
        };
        proof {
            reveal_strlit(".");
        }
        Ok(
            DeepThought {
                dbpath: ".".to_owned(),
                model: ModelConfig {
                    path: gguf_model.to_owned(),
                    system_prompt: DEFAULT_ROUTE_SYSTEM_PROMPT.to_owned(),
                    context_length: DEFAULT_CONTEXT_LENGTH,
                    batch_size: DEFAULT_BATCH_SIZE,
                },
                embed_model: None,
                embedding_doc_prefix: String::new(),
                embedding_query_prefix: String::new(),
                vecstore: None,
                context,
            },
        )
    }

    /// Configure the embedding model at `gguf_model`.
    pub fn embed_model(&mut self, gguf_model: &str) -> (r: Result<(), DeepThoughtError>)
        requires
            old(self).wf(),
        ensures
            r is Ok,
            final(self).wf(),
            final(self).embed_model matches Some(m) && m.path@ == gguf_model@
                && m.system_prompt@ == DEFAULT_ROUTE_SYSTEM_PROMPT@,
            final(self).spec_vecstore() == old(self).spec_vecstore(),
            final(self).spec_context() == old(self).spec_context(),
            final(self).model == old(self).model,
            final(self).dbpath == old(self).dbpath,
            final(self).embedding_doc_prefix == old(self).embedding_doc_prefix,
            final(self).embedding_query_prefix == old(self).embedding_query_prefix,
    {
        self.embed_model = Some(
            ModelConfig {
                path: gguf_model.to_owned(),
                system_prompt: DEFAULT_ROUTE_SYSTEM_PROMPT.to_owned(),
                context_length: DEFAULT_CONTEXT_LENGTH,
                batch_size: DEFAULT_BATCH_SIZE,
            },
        );
        Ok(())
    }

    /// Attach a knowledge store to the route.
    pub fn set_vecstore(&mut self, store: DeepThoughtVecStore)
        requires
            old(self).wf(),
            store.wf(),
        ensures
            final(self).wf(),
            final(self).spec_vecstore() == Some(store),
            final(self).spec_context() == old(self).spec_context(),
            final(self).model == old(self).model,
            final(self).embed_model == old(self).embed_model,
            final(self).dbpath == old(self).dbpath,
            final(self).embedding_doc_prefix == old(self).embedding_doc_prefix,
            final(self).embedding_query_prefix == old(self).embedding_query_prefix,
    {
        self.vecstore = Some(store);
    }

    /// The route's conversation history.
    pub fn context(&self) -> (r: &DeepThoughtContext)
        ensures
            *r == self.spec_context(),
    {
        &self.context
    }

    /// Append collaborator-retrieved context to the conversation as an
    /// assistant message, so that the next chat call sees it.
    pub fn add_inference_to_prompt(&mut self, data: &str) -> (r: Result<(), DeepThoughtError>)
        requires
            old(self).wf(),
        ensures
            final(self).wf(),
            old(self).spec_context().can_append() <==> r is Ok,
            r is Ok ==> crate::context::appended(
                old(self).spec_context().spec_messages(),
                final(self).spec_context().spec_messages(),
                crate::context::Role::Assistant,
                data@,
            ),
            r matches Err(e) ==> e is Capacity && final(self).spec_context().spec_messages()
                == old(self).spec_context().spec_messages(),
            final(self).spec_context().spec_max() == old(self).spec_context().spec_max(),
            final(self).spec_vecstore() == old(self).spec_vecstore(),
    {
        self.context.assistant(data)
    }

    /// Whether the conversation can still take one full exchange (a user
    /// message and the assistant's reply).
    pub open spec fn can_record_exchange(&self) -> bool {
        match self.spec_context().spec_max() {
            Some(m) => self.spec_context().spec_messages().len() < m,
            None => true,
        }
    }

    /// Record one completed exchange: the user's prompt, then the text the
    /// inference collaborator produced, in that order.  The exchange is
    /// recorded whole or not at all: a conversation without room for both
    /// messages is left unchanged.
    pub fn record_exchange(&mut self, prompt: &str, inference: &str) -> (r: Result<
        (),
        DeepThoughtError,
    >)
        requires
            old(self).wf(),
        ensures
            final(self).wf(),
            r is Ok <==> old(self).can_record_exchange(),
            r is Ok ==> {
                let before = old(self).spec_context().spec_messages();
                let after = final(self).spec_context().spec_messages();
                &&& after.len() == before.len() + 2
                &&& after.subrange(0, before.len() as int) == before
                &&& after[before.len() as int].role == crate::context::Role::User
                &&& after[before.len() as int].text@ == prompt@
                &&& after[before.len() as int + 1].role == crate::context::Role::Assistant
                &&& after[before.len() as int + 1].text@ == inference@
            },
            r matches Err(e) ==> e is Capacity && final(self).spec_context().spec_messages()
                == old(self).spec_context().spec_messages(),
            final(self).spec_context().spec_max() == old(self).spec_context().spec_max(),
            final(self).spec_vecstore() == old(self).spec_vecstore(),
            final(self).model == old(self).model,
            final(self).embed_model == old(self).embed_model,
            final(self).dbpath == old(self).dbpath,
            final(self).embedding_doc_prefix == old(self).embedding_doc_prefix,
            final(self).embedding_query_prefix == old(self).embedding_query_prefix,
    {
        match self.context.maximum() {
            Some(m) => {
                if !(self.context.messages().len() < m) {
                    return Err(DeepThoughtError::Capacity("Context is full".to_owned()));
                }
            },
            None => {},
        }
        let ghost before = self.context.spec_messages();
        match self.context.user(prompt) {
            Ok(_) => {},
            Err(e) => {
                return Err(e);
            },
        }
        let ghost mid = self.context.spec_messages();
        let r = self.context.assistant(inference);
        proof {
            if r is Ok {
                let after = self.context.spec_messages();
                assert(after.subrange(0, before.len() as int) =~= before);
                assert(after[before.len() as int] == mid.last());
            }
        }
        r
    }

    /// Reset the conversation to one system message: the given prompt, or
    /// the route's configured one.
    pub fn reset_messages(&mut self, system_prompt: Option<&str>) -> (r: Result<
        (),
        DeepThoughtError,
    >)
        requires
            old(self).wf(),
        ensures
            r is Ok,
            final(self).wf(),
            final(self).spec_context().spec_messages().len() == 1,
            final(self).spec_context().spec_messages()[0].role == crate::context::Role::System,
            system_prompt matches Some(p) ==> final(self).spec_context().spec_messages()[0].text@
                == p@,
            system_prompt is None ==> final(self).spec_context().spec_messages()[0].text@ == old(
                self,
            ).model.system_prompt@,
            final(self).spec_context().spec_max() is None,
            final(self).spec_vecstore() == old(self).spec_vecstore(),
            final(self).model == old(self).model,
            final(self).embed_model == old(self).embed_model,
            final(self).dbpath == old(self).dbpath,
            final(self).embedding_doc_prefix == old(self).embedding_doc_prefix,
            final(self).embedding_query_prefix == old(self).embedding_query_prefix,
    {
        let text = match system_prompt {
            Some(p) => p.to_owned(),
            None => self.model.system_prompt.clone(),
        };
        match DeepThoughtContext::init(text.as_str()) {
            Ok(c) => {
                self.context = c;
                Ok(())
            },
            Err(e) => Err(e),
        }
    }

    /// Plan the insertion of a document under a fresh identifier: the
    /// embedding model and the knowledge store must both be configured.
    pub fn add_document(&mut self, doc: &str) -> (r: Result<Vec<ChunkPlan>, DeepThoughtError>)
        requires
            old(self).wf(),
            old(self).spec_vecstore() matches Some(s) ==> doc@.len() + s.spec_chunk_size()
                <= usize::MAX,
        ensures
            final(self).wf(),
            *final(self) == *old(self),
            old(self).embed_model is None ==> (r matches Err(e) && e is Configuration),
            old(self).embed_model is Some && old(self).spec_vecstore() is None ==> (r matches Err(
                e,
            ) && e is Configuration),
            old(self).spec_vecstore() matches Some(s) ==> (old(self).embed_model is Some ==> (
            r matches Ok(plans) && plans@.len() == chunk_count(
                doc@.len() as int,
                s.spec_chunk_size() as int,
                s.spec_chunk_overlap() as int,
            ))),
    {
        if self.embed_model.is_none() {
            return Err(DeepThoughtError::Configuration("Embedding model not set".to_owned()));
        }
        match &self.vecstore {
            Some(store) => {
                let id = fresh_id();
                Ok(store.plan_document(id.as_str(), doc))
            },
            None => Err(DeepThoughtError::Configuration("Vector store not set".to_owned())),
        }
    }

    /// Plan the insertion of a single string under a fresh identifier.
    pub fn add_string(&mut self, doc: &str) -> (r: Result<ChunkPlan, DeepThoughtError>)
        requires
            old(self).wf(),
        ensures
            final(self).wf(),
            *final(self) == *old(self),
            old(self).embed_model is None ==> (r matches Err(e) && e is Configuration),
            old(self).embed_model is Some && old(self).spec_vecstore() is None ==> (r matches Err(
                e,
            ) && e is Configuration),
            old(self).spec_vecstore() matches Some(s) ==> (old(self).embed_model is Some ==> (
            r matches Ok(plan) && plan.text@ == doc@ && plan.embed_input@ == embed_text(
                s.spec_prefix(),
                doc@,
            ))),
    {
        if self.embed_model.is_none() {
            return Err(DeepThoughtError::Configuration("Embedding model not set".to_owned()));
        }
        match &self.vecstore {
            Some(store) => {
                let id = fresh_id();
                Ok(store.plan_string(id.as_str(), doc))
            },
            None => Err(DeepThoughtError::Configuration("Vector store not set".to_owned())),
        }
    }

    /// Plan the insertion of a tagged document under its own identifier.
    pub fn add_value(&mut self, doc: &DeepThoughtObject) -> (r: Result<ChunkPlan, DeepThoughtError>)
        requires
            old(self).wf(),
        ensures
            final(self).wf(),
            *final(self) == *old(self),
            old(self).embed_model is None ==> (r matches Err(e) && e is Configuration),
            old(self).embed_model is Some && old(self).spec_vecstore() is None ==> (r matches Err(
                e,
            ) && e is Configuration),
            old(self).spec_vecstore() is Some ==> (old(self).embed_model is Some ==> (
            r matches Ok(plan) && plan.id@ == doc.id@ && plan.text@ == doc.content@)),
    {
        if self.embed_model.is_none() {
            return Err(DeepThoughtError::Configuration("Embedding model not set".to_owned()));
        }
        match &self.vecstore {
            Some(store) => Ok(store.plan_string(doc.id.as_str(), doc.content.as_str())),
            None => Err(DeepThoughtError::Configuration("Vector store not set".to_owned())),
        }
    }

    /// Apply one planned upsert to the knowledge store, after its text has
    /// been embedded.
    pub fn apply_chunk(&mut self, plan: &ChunkPlan) -> (r: Result<(), DeepThoughtError>)
        requires
            old(self).wf(),
        ensures
            final(self).wf(),
            old(self).spec_vecstore() is None ==> (r matches Err(e) && e is Configuration
                && *final(self) == *old(self)),
            old(self).spec_vecstore() matches Some(s) ==> (r is Ok && (final(self).spec_vecstore() matches Some(t) && t.spec_live(plan.id@) && (forall|k: Seq<char>|
                k != plan.id@ ==> t.spec_record(k) == s.spec_record(k)))),
            final(self).spec_context() == old(self).spec_context(),
            final(self).embed_model == old(self).embed_model,
    {
        match &mut self.vecstore {
            Some(store) => {
                store.apply_chunk(plan);
                Ok(())
            },
            None => Err(DeepThoughtError::Configuration("Vector store not set".to_owned())),
        }
    }

    /// Soft-delete the record stored under the tagged document's identifier.
    pub fn delete_value(&mut self, doc: &DeepThoughtObject) -> (r: Result<(), DeepThoughtError>)
        requires
            old(self).wf(),
        ensures
            final(self).wf(),
            old(self).spec_vecstore() is None ==> (r matches Err(e) && e is Configuration),
            old(self).spec_vecstore() is Some ==> r is Ok,
            old(self).spec_vecstore() matches Some(s) ==> (final(self).spec_vecstore() matches Some(t) && !t.spec_live(doc.id@)),
    {
        self.delete_record_inner(doc.id.as_str())
    }

    /// Soft-delete the record stored under `id`.
    pub fn delete_record(&mut self, id: &str) -> (r: Result<(), DeepThoughtError>)
        requires
            old(self).wf(),
        ensures
            final(self).wf(),
            old(self).spec_vecstore() is None ==> (r matches Err(e) && e is Configuration),
            old(self).spec_vecstore() is Some ==> r is Ok,
            old(self).spec_vecstore() matches Some(s) ==> (final(self).spec_vecstore() matches Some(t) && !t.spec_live(id@) && (forall|k: Seq<char>|
                k != id@ ==> t.spec_record(k) == s.spec_record(k))),
    {
        self.delete_record_inner(id)
    }

    fn delete_record_inner(&mut self, id: &str) -> (r: Result<(), DeepThoughtError>)
        requires
            old(self).wf(),
        ensures
            final(self).wf(),
            old(self).spec_vecstore() is None ==> (r matches Err(e) && e is Configuration
                && *final(self) == *old(self)),
            old(self).spec_vecstore() is Some ==> r is Ok,
            old(self).spec_vecstore() matches Some(s) ==> (final(self).spec_vecstore() matches Some(t) && !t.spec_live(id@) && (forall|k: Seq<char>|
                k != id@ ==> t.spec_record(k) == s.spec_record(k))),
    {
        match &mut self.vecstore {
            Some(store) => store.delete_record(id),
            None => Err(DeepThoughtError::Configuration("Vector store not set".to_owned())),
        }
    }

    /// The text to embed for a query: the route's query prefix, a space, and
    /// the query.
    pub fn query_embed_input(&self, q: &str) -> (r: Result<String, DeepThoughtError>)
        ensures
            self.embed_model is None ==> (r matches Err(e) && e is Configuration),
            self.embed_model is Some ==> (r matches Ok(s) && s@ == embed_text(
                self.embedding_query_prefix@,
                q@,
            )),
    {
        if self.embed_model.is_none() {
            return Err(DeepThoughtError::Configuration("Embedding model not set".to_owned()));
        }
        let s = self.embedding_query_prefix.clone().concat(" ").concat(q);
        proof {
            reveal_strlit(" ");
            assert(s@ =~= embed_text(self.embedding_query_prefix@, q@));
        }
        Ok(s)
    }

    /// Filter the raw results of the hybrid index and hand back the stored
    /// texts, best score first.
    pub fn query_vecstore(&self, raw: &Vec<RawHit>) -> (r: Result<Vec<String>, DeepThoughtError>)
        requires
            self.wf(),
        ensures
            self.spec_vecstore() is None ==> (r matches Err(e) && e is Configuration),
            self.spec_vecstore() matches Some(s) ==> (r matches Ok(texts) && {
                let f = s.filter_hits(raw@);
                &&& texts@.len() == if f.len() <= s.spec_k() {
                    f.len() as int
                } else {
                    s.spec_k() as int
                }
                &&& forall|i: int|
                    0 <= i < texts@.len() ==> (#[trigger] texts@[i])@ == s.spec_record(
                        f[i].id@,
                    )->Some_0.text@
            }),
    {
        match &self.vecstore {
            Some(store) => Ok(store.query(raw)),
            None => Err(DeepThoughtError::Configuration("Vector store not set".to_owned())),
        }
    }

    /// Filter the raw results, render each surviving neighbor through the
    /// named template, and bundle the rendered strings with the query text.
    pub fn query_templated(&self, raw: &Vec<RawHit>, template_name: &str, query: &str) -> (r:
        Result<RagBundle, DeepThoughtError>)
        requires
            self.wf(),
        ensures
            self.spec_vecstore() is None ==> (r matches Err(e) && e is Configuration),
            r matches Ok(b) ==> b.query@ == query@,
            self.spec_vecstore() matches Some(s) ==> {
                let f = s.filter_hits(raw@);
                let count = if f.len() <= s.spec_k() {
                    f.len() as int
                } else {
                    s.spec_k() as int
                };
                &&& (s.spec_templates().spec_get(template_name@) is None && count > 0) ==> (
                r matches Err(e) && e is NotFound)
                &&& r matches Err(e) ==> templated_query_err(s, raw@, template_name@, e)
                &&& r matches Ok(b) ==> {
                    &&& b.rag@.len() == count
                    &&& forall|i: int|
                        0 <= i < b.rag@.len() ==> rendered(
                            s.spec_templates().spec_get(template_name@)->Some_0@,
                            crate::store::output_context_of(s, f[i]),
                        ) == Some((#[trigger] b.rag@[i])@)
                }
            },
    {
        let store = match &self.vecstore {
            Some(store) => store,
            None => {
                return Err(DeepThoughtError::Configuration("Vector store not set".to_owned()));
            },
        };
        let neighbors = store.query_neighbors(raw);
        let ghost f = store.filter_hits(raw@);
        let n = neighbors.len();
        let mut rag: Vec<String> = Vec::new();
        let mut i: usize = 0;
        while i < n
            invariant
                n == neighbors@.len(),
                i <= n,
                store.wf(),
                self.spec_vecstore() == Some(*store),
                f == store.filter_hits(raw@),
                i > 0 ==> store.spec_templates().spec_get(template_name@) is Some,
                n as int == (if f.len() <= store.spec_k() {
                    f.len() as int
                } else {
                    store.spec_k() as int
                }),
                rag@.len() == i,
                forall|j: int|
                    0 <= j < n ==> store.neighbor_matches(f[j], #[trigger] neighbors@[j]),
                forall|j: int|
                    0 <= j < i ==> rendered(
                        store.spec_templates().spec_get(template_name@)->Some_0@,
                        crate::store::output_context_of(*store, f[j]),
                    ) == Some((#[trigger] rag@[j])@),
            decreases n - i,
        {
            match store.output(template_name, &neighbors[i]) {
                Ok(text) => {
                    proof {
                        assert(crate::store::output_context(neighbors@[i as int])
                            =~= crate::store::output_context_of(*store, f[i as int]));
                    }
                    rag.push(text);
                },
                Err(e) => {
                    proof {
                        assert(crate::store::output_context(neighbors@[i as int])
                            =~= crate::store::output_context_of(*store, f[i as int]));
                        assert((i as int) < (n as int));
                        if store.spec_templates().spec_get(template_name@) is Some {
                            let tpl = store.spec_templates().spec_get(template_name@)->Some_0;
                            assert(rendered(
                                tpl@,
                                crate::store::output_context_of(*store, f[i as int]),
                            ) is None);
                            assert(e is Collaborator);
                        } else {
                            assert(e is NotFound);
                        }
                        assert(templated_query_err(*store, raw@, template_name@, e));
                    }
                    return Err(e);
                },
            }
            i = i + 1;
        }
        Ok(RagBundle { query: query.to_owned(), rag })
    }

    /// The number of live records in the knowledge store; a route without a
    /// store holds none.
    pub fn len(&self) -> (r: usize)
        requires
            self.wf(),
        ensures
            self.spec_vecstore() matches Some(s) ==> r == crate::store::live_count(
                s.spec_records().spec_entries(),
            ),
            self.spec_vecstore() is None ==> r == 0,
    {
        match &self.vecstore {
            Some(store) => store.len(),
            None => 0,
        }
    }

    /// The stored text under `id`; tombstoned and unknown ids are not found.
    pub fn get(&self, id: &str) -> (r: Result<String, DeepThoughtError>)
        requires
            self.wf(),
        ensures
            self.spec_vecstore() is None ==> (r matches Err(e) && e is Configuration),
            self.spec_vecstore() matches Some(s) ==> {
                &&& s.spec_live(id@) ==> (r matches Ok(t) && t == s.spec_record(id@)->Some_0.text)
                &&& !s.spec_live(id@) ==> (r matches Err(e) && e is NotFound)
            },
    {
        match &self.vecstore {
            Some(store) => store.get(id),
            None => Err(DeepThoughtError::Configuration("Vector store not set".to_owned())),
        }
    }

    /// Register an output template on the route's knowledge store.
    pub fn register_template(&mut self, name: &str, template: &str) -> (r: Result<
        (),
        DeepThoughtError,
    >)
        requires
            old(self).wf(),
        ensures
            final(self).wf(),
            old(self).spec_vecstore() is None ==> (r matches Err(e) && e is Configuration),
            old(self).spec_vecstore() is Some ==> (r is Ok && (final(self).spec_vecstore() matches Some(t) && t.spec_templates().spec_get(
                name@,
            ) matches Some(tp) && tp@ == template@)),
            final(self).spec_context() == old(self).spec_context(),
    {
        match &mut self.vecstore {
            Some(store) => store.register_template(name, template),
            None => Err(DeepThoughtError::Configuration("Vector store not set".to_owned())),
        }
    }

    /// Persist the knowledge store: logically, compaction reclaims every
    /// tombstoned record.  A route without a store has nothing to persist.
    pub fn sync(&mut self) -> (r: Result<(), DeepThoughtError>)
        requires
            old(self).wf(),
        ensures
            r is Ok,
            final(self).wf(),
            old(self).spec_vecstore() matches Some(s) ==> (final(self).spec_vecstore() matches Some(t) && (forall|k: Seq<char>|
                s.spec_live(k) ==> t.spec_record(k) == s.spec_record(k)) && (forall|k: Seq<char>|
                !s.spec_live(k) ==> t.spec_record(k) is None)),
            old(self).spec_vecstore() is None ==> *final(self) == *old(self),
    {
        match &mut self.vecstore {
            Some(store) => store.save_vectorstore(),
            None => Ok(()),
        }
    }
}

} // verus!
