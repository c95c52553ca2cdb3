//! Route construction from an explicit configuration record.
//!
//! Every field is named, defaults are documented on the setters, and the
//! whole configuration is validated in one place: construction either fully
//! succeeds or fails with a configuration error, never leaving a partially
//! built route.  Creating the storage directory and loading model weights
//! are side effects at the edge and belong to the embedding caller.

use vstd::prelude::*;

use crate::DeepThoughtError;
use crate::route::{DEFAULT_BATCH_SIZE, DEFAULT_CONTEXT_LENGTH, DeepThought};
use crate::store::{DEFAULT_CHUNK_OVERLAP, DEFAULT_CHUNK_SIZE, DeepThoughtVecStore};

verus! {

/// The configuration a route is built from.
pub struct DeepThoughtBuilder {
    /// Root directory of the route's storage; `db` when unset.
    pub dbpath: Option<String>,
    /// Path of the chat model weights; `chat.gguf` when unset.
    pub chat_model_gguf: Option<String>,
    /// Path of the embedding model weights; no embedder when unset.
    pub embed_model_gguf: Option<String>,
    /// Model context length in tokens.
    pub context_length: Option<usize>,
    /// Inference batch size.
    pub batch_size: Option<usize>,
    /// Prefix prepended to every document before embedding.
    pub embedding_doc_prefix: String,
    /// Prefix prepended to every query before embedding.
    pub embedding_query_prefix: String,
    /// Number of characters per chunk.
    pub chunk_size: Option<usize>,
    /// Number of characters shared by consecutive chunks.
    pub chunk_overlap: Option<usize>,
}

/// The value of an optional `usize` setting under its default.
pub open spec fn usize_or(o: Option<usize>, d: usize) -> usize {
    match o {
        Some(v) => v,
        None => d,
    }
}

impl DeepThoughtBuilder {
    /// The chunk size the built route will use.
    pub open spec fn spec_chunk_size(&self) -> usize {
        usize_or(self.chunk_size, DEFAULT_CHUNK_SIZE)
    }

    /// The chunk overlap the built route will use.
    pub open spec fn spec_chunk_overlap(&self) -> usize {
        usize_or(self.chunk_overlap, DEFAULT_CHUNK_OVERLAP)
    }

    /// Whether the configuration is valid: the chunk overlap must stay
    /// below the chunk size.
    pub open spec fn spec_valid(&self) -> bool {
        0 < self.spec_chunk_size() && self.spec_chunk_overlap() < self.spec_chunk_size()
    }

    /// What the built route looks like: every field resolved from the
    /// configuration, documented defaults where a setting is unset, a fresh
    /// well-formed knowledge store attached.
    pub open spec fn spec_builds(&self, dt: DeepThought) -> bool {
        &&& dt.wf()
        &&& (self.dbpath matches Some(p) ==> dt.dbpath@ == p@)
        &&& (self.dbpath is None ==> dt.dbpath@ == "db"@)
        &&& (self.chat_model_gguf matches Some(p) ==> dt.model.path@ == p@)
        &&& (self.chat_model_gguf is None ==> dt.model.path@ == "chat.gguf"@)
        &&& (self.embed_model_gguf matches Some(p) ==> dt.embed_model matches Some(m) && m.path@
            == p@)
        &&& (self.embed_model_gguf is None ==> dt.embed_model is None)
        &&& dt.model.context_length == usize_or(self.context_length, DEFAULT_CONTEXT_LENGTH)
        &&& dt.model.batch_size == usize_or(self.batch_size, DEFAULT_BATCH_SIZE)
        &&& dt.embedding_doc_prefix == self.embedding_doc_prefix
        &&& dt.embedding_query_prefix == self.embedding_query_prefix
        &&& (dt.spec_vecstore() matches Some(s) && s.spec_chunk_size() == self.spec_chunk_size()
            && s.spec_chunk_overlap() == self.spec_chunk_overlap() && s.spec_prefix()
            == self.embedding_doc_prefix@ && (forall|id: Seq<char>| s.spec_record(id) is None))
    }

    /// An empty configuration: default chunking, empty prefixes, everything
    /// else unset.
    pub fn new() -> (r: Self)
        ensures
            r.dbpath is None,
            r.chat_model_gguf is None,
            r.embed_model_gguf is None,
            r.context_length is None,
            r.batch_size is None,
            r.embedding_doc_prefix@.len() == 0,
            r.embedding_query_prefix@.len() == 0,
            r.chunk_size == Some(DEFAULT_CHUNK_SIZE),
            r.chunk_overlap == Some(DEFAULT_CHUNK_OVERLAP),
    {
        DeepThoughtBuilder {
            dbpath: None,
            chat_model_gguf: None,
            embed_model_gguf: None,
            context_length: None,
            batch_size: None,
            embedding_doc_prefix: String::new(),
            embedding_query_prefix: String::new(),
            chunk_size: Some(DEFAULT_CHUNK_SIZE),
            chunk_overlap: Some(DEFAULT_CHUNK_OVERLAP),
        }
    }

    /// Set the chat model weights path.
    pub fn chat_model_gguf(self, path: String) -> (r: Self)
        ensures
            r == (Self { chat_model_gguf: Some(path), ..self }),
    {
        Self { chat_model_gguf: Some(path), ..self }
    }

    /// Set the embedding model weights path.
    pub fn embed_model_gguf(self, path: String) -> (r: Self)
        ensures
            r == (Self { embed_model_gguf: Some(path), ..self }),
    {
        Self { embed_model_gguf: Some(path), ..self }
    }

    /// Set the storage root directory.
    pub fn dbpath(self, path: String) -> (r: Self)
        ensures
            r == (Self { dbpath: Some(path), ..self }),
    {
        Self { dbpath: Some(path), ..self }
    }

    /// Set the prefix prepended to every document before embedding.
    pub fn embedding_doc_prefix(self, prefix: String) -> (r: Self)
        ensures
            r == (Self { embedding_doc_prefix: prefix, ..self }),
    {
        Self { embedding_doc_prefix: prefix, ..self }
    }

    /// Set the prefix prepended to every query before embedding.
    pub fn embedding_query_prefix(self, prefix: String) -> (r: Self)
        ensures
            r == (Self { embedding_query_prefix: prefix, ..self }),
    {
        Self { embedding_query_prefix: prefix, ..self }
    }

    /// Set the model context length.
    pub fn context_length(self, length: usize) -> (r: Self)
        ensures
            r == (Self { context_length: Some(length), ..self }),
    {
        Self { context_length: Some(length), ..self }
    }

    /// Set the inference batch size.
    pub fn batch_size(self, size: usize) -> (r: Self)
        ensures
            r == (Self { batch_size: Some(size), ..self }),
    {
        Self { batch_size: Some(size), ..self }
    }

    /// Set the chunk size.
    pub fn chunk_size(self, size: usize) -> (r: Self)
        ensures
            r == (Self { chunk_size: Some(size), ..self }),
    {
        Self { chunk_size: Some(size), ..self }
    }

    /// Set the chunk overlap.
    pub fn chunk_overlap(self, size: usize) -> (r: Self)
        ensures
            r == (Self { chunk_overlap: Some(size), ..self }),
    {
        Self { chunk_overlap: Some(size), ..self }
    }

    /// Validate the whole configuration and build the route: a fully
    /// configured, well-formed route with its knowledge store attached, or a
    /// configuration error, never a partially built object.
    pub fn build(self) -> (r: Result<DeepThought, DeepThoughtError>)
        ensures
            r is Ok <==> self.spec_valid(),
            r matches Err(e) ==> e is Configuration,
            r matches Ok(dt) ==> self.spec_builds(dt),
    {
        let chunk_size = match self.chunk_size {
            Some(size) => size,
            None => DEFAULT_CHUNK_SIZE,
        };
        let chunk_overlap = match self.chunk_overlap {
            Some(size) => size,
            None => DEFAULT_CHUNK_OVERLAP,
        };
        if !(0 < chunk_size && chunk_overlap < chunk_size) {
            return Err(
                DeepThoughtError::Configuration(
                    "chunk_overlap must be smaller than chunk_size".to_owned(),
                ),
            );
        }
        let dbpath = match self.dbpath {
            Some(path) => path,
            None => "db".to_owned(),
        };
        let chat_gguf = match self.chat_model_gguf {
            Some(path) => path,
            None => "chat.gguf".to_owned(),
        };
        let mut model = match DeepThought::new(chat_gguf.as_str()) {
            Ok(model) => model,
            Err(e) => {
                return Err(e);
            },
        };
        match self.embed_model_gguf {
            Some(path) => {
                match model.embed_model(path.as_str()) {
                    Ok(_) => {},
                    Err(e) => {
                        return Err(e);
                    },
                }
            },
            None => {},
        }
        let mut vecstore = match DeepThoughtVecStore::new(dbpath.as_str()) {
            Ok(vecstore) => vecstore,
            Err(e) => {
                return Err(e);
            },
        };
        let ghost s0 = vecstore;
        vecstore.configure_chunking(chunk_size, chunk_overlap);
        vecstore.set_embedding_prefix(self.embedding_doc_prefix.as_str());
        proof {
            assert forall|id: Seq<char>| vecstore.spec_record(id) is None by {
                assert(s0.spec_record(id) is None);
                assert(vecstore.spec_records() == s0.spec_records());
            }
        }
        model.model.context_length = match self.context_length {
            Some(len) => len,
            None => DEFAULT_CONTEXT_LENGTH,
        };
        model.model.batch_size = match self.batch_size {
            Some(size) => size,
            None => DEFAULT_BATCH_SIZE,
        };
        model.dbpath = dbpath;
        model.embedding_doc_prefix = self.embedding_doc_prefix;
        model.embedding_query_prefix = self.embedding_query_prefix;
        model.set_vecstore(vecstore);
        Ok(model)
    }
}

} // verus!
