//! The knowledge store: a hybrid-retrieval index over chunked documents.
//!
//! The store owns the logical record state: one record per chunk, keyed by a
//! derived id, carrying the chunk text, optional tags, and a tombstone flag.
//! Text is split into overlapping chunks, each chunk embedded (by the
//! embedding collaborator) and upserted one at a time; a failed embedding
//! aborts the rest of the document but never rolls back chunks already
//! applied.  Deletion is a soft delete: the record is tombstoned, excluded
//! from every query and lookup, and its storage reclaimed only when `save`
//! compacts.
//!
//! Scores travel in their IEEE 754 bit encoding (`f32::to_bits`), under
//! which the order of the nonnegative scores coincides with the integer
//! order of the encodings; the core never computes with the scores, it only
//! compares them against the configured ceiling.

use vstd::prelude::*;
use vstd::string::StringExecFns;

use crate::DeepThoughtError;
use crate::chunk::{chunk_count, chunk_seq, chunk_text};
use crate::decimal::{spec_decimal, usize_decimal};
use crate::namemap::NameMap;
use crate::object::DeepThoughtObject;
use crate::template::{pairs_as_map, rendered, template};

verus! {

/// Default number of characters per chunk.
pub const DEFAULT_CHUNK_SIZE: usize = 1024;

/// Default number of characters shared by consecutive chunks.
pub const DEFAULT_CHUNK_OVERLAP: usize = 128;

/// Default maximum number of neighbors a query returns.
pub const DEFAULT_K: usize = 10;

/// Default vector-versus-keyword weight, as the bit encoding of 0.7.
pub const DEFAULT_ALPHA_BITS: u32 = 0x3F333333;

/// Default score ceiling, as the bit encoding of 0.3.
pub const DEFAULT_MAX_SCORE_BITS: u32 = 0x3E99999A;

/// What the store holds for one record, besides its id.
pub struct RecordData {
    /// Position of the chunk within its document.
    pub seq_index: usize,
    /// The chunk text.
    pub text: String,
    /// Tag fields, keys carrying the reserved `tag.` prefix.
    pub tags: Vec<(String, String)>,
    /// Soft-deletion flag: a tombstoned record is excluded from queries and
    /// lookups until compaction reclaims it.
    pub tombstone: bool,
}

/// One raw result handed back by the hybrid index: an id and its score in
/// bit encoding, plus the score's display text.
pub struct RawHit {
    pub id: String,
    pub score_bits: u32,
    pub score_text: String,
}

/// One query result: the record snapshot together with its score.
pub struct DeepThoughtNeighbor {
    pub id: String,
    pub score_bits: u32,
    pub score_text: String,
    pub seq_index: usize,
    pub text: String,
    pub tags: Vec<(String, String)>,
}

/// One planned upsert: the record to apply after its text has been embedded.
pub struct ChunkPlan {
    /// The derived record id.
    pub id: String,
    /// Position of the chunk within its document.
    pub seq_index: usize,
    /// The chunk text.
    pub text: String,
    /// Tag fields to store with the record.
    pub tags: Vec<(String, String)>,
    /// The text to hand to the embedding collaborator: the store's document
    /// prefix, a space, and the chunk text.
    pub embed_input: String,
}

/// The id of chunk `n` of document `id`.
pub open spec fn chunk_record_id(id: Seq<char>, n: nat) -> Seq<char> {
    id + seq!['-'] + spec_decimal(n)
}

/// The text handed to the embedding collaborator for a chunk: the document
/// prefix, one space, the chunk text.
pub open spec fn embed_text(prefix: Seq<char>, chunk: Seq<char>) -> Seq<char> {
    prefix + seq![' '] + chunk
}

/// How many records among `s` are live (not tombstoned).
pub open spec fn live_count(s: Seq<(String, RecordData)>) -> int
    decreases s.len(),
{
    if s.len() == 0 {
        0
    } else {
        live_count(s.drop_last()) + if s.last().1.tombstone {
            0int
        } else {
            1int
        }
    }
}

/// A knowledge store: per-store chunking and scoring configuration, the
/// logical record state, and the output templates.
pub struct DeepThoughtVecStore {
    path: Option<String>,
    records: NameMap<RecordData>,
    chunk_size: usize,
    chunk_overlap: usize,
    embedding_prefix: String,
    k: usize,
    alpha_bits: u32,
    max_score_bits: u32,
    templates: NameMap<String>,
}

impl DeepThoughtVecStore {
    /// The directory path the store is rooted at, if one was supplied.
    pub closed spec fn spec_path(&self) -> Option<String> {
        self.path
    }

    /// The record registry.
    pub closed spec fn spec_records(&self) -> NameMap<RecordData> {
        self.records
    }

    /// The configured chunk size.
    pub closed spec fn spec_chunk_size(&self) -> usize {
        self.chunk_size
    }

    /// The configured chunk overlap.
    pub closed spec fn spec_chunk_overlap(&self) -> usize {
        self.chunk_overlap
    }

    /// The prefix prepended to every text before embedding.
    pub closed spec fn spec_prefix(&self) -> Seq<char> {
        self.embedding_prefix@
    }

    /// The configured maximum number of query results.
    pub closed spec fn spec_k(&self) -> usize {
        self.k
    }

    /// The configured vector-versus-keyword weight, in bit encoding.
    pub closed spec fn spec_alpha_bits(&self) -> u32 {
        self.alpha_bits
    }

    /// The configured score ceiling, in bit encoding.
    pub closed spec fn spec_max_score_bits(&self) -> u32 {
        self.max_score_bits
    }

    /// The output template registry.
    pub closed spec fn spec_templates(&self) -> NameMap<String> {
        self.templates
    }

    /// Well-formedness: unique record ids, unique template names, and a
    /// chunking configuration whose overlap is smaller than its size.
    pub open spec fn wf(&self) -> bool {
        &&& self.spec_records().wf()
        &&& self.spec_templates().wf()
        &&& 0 < self.spec_chunk_size()
        &&& self.spec_chunk_overlap() < self.spec_chunk_size()
    }

    /// The record stored under `id`, if any (tombstoned or not).
    pub open spec fn spec_record(&self, id: Seq<char>) -> Option<RecordData> {
        self.spec_records().spec_get(id)
    }

    /// Whether `id` names a live (non-tombstoned) record.
    pub open spec fn spec_live(&self, id: Seq<char>) -> bool {
        match self.spec_record(id) {
            Some(d) => !d.tombstone,
            None => false,
        }
    }

    /// A store rooted at `path`, empty, with the default configuration.
    pub fn new(path: &str) -> (r: Result<Self, DeepThoughtError>)
        ensures
            r matches Ok(s) && s.wf() && (s.spec_path() matches Some(p) && p@ == path@)
                && s.spec_chunk_size() == DEFAULT_CHUNK_SIZE && s.spec_chunk_overlap()
                == DEFAULT_CHUNK_OVERLAP && s.spec_k() == DEFAULT_K && s.spec_alpha_bits()
                == DEFAULT_ALPHA_BITS && s.spec_max_score_bits() == DEFAULT_MAX_SCORE_BITS
                && s.spec_prefix().len() == 0 && (forall|id: Seq<char>|
                s.spec_record(id) is None) && (forall|n: Seq<char>|
                s.spec_templates().spec_get(n) is None),
    {
        Ok(
            DeepThoughtVecStore {
                path: Some(path.to_owned()),
                records: NameMap::new(),
                chunk_size: DEFAULT_CHUNK_SIZE,
                chunk_overlap: DEFAULT_CHUNK_OVERLAP,
                embedding_prefix: String::new(),
                k: DEFAULT_K,
                alpha_bits: DEFAULT_ALPHA_BITS,
                max_score_bits: DEFAULT_MAX_SCORE_BITS,
                templates: NameMap::new(),
            },
        )
    }

    /// Set the chunking configuration; the overlap must stay below the size.
    pub fn configure_chunking(&mut self, chunk_size: usize, chunk_overlap: usize)
        requires
            old(self).wf(),
            0 < chunk_size,
            chunk_overlap < chunk_size,
        ensures
            final(self).wf(),
            final(self).spec_chunk_size() == chunk_size,
            final(self).spec_chunk_overlap() == chunk_overlap,
            final(self).spec_records() == old(self).spec_records(),
            final(self).spec_templates() == old(self).spec_templates(),
            final(self).spec_prefix() == old(self).spec_prefix(),
            final(self).spec_k() == old(self).spec_k(),
            final(self).spec_alpha_bits() == old(self).spec_alpha_bits(),
            final(self).spec_max_score_bits() == old(self).spec_max_score_bits(),
            final(self).spec_path() == old(self).spec_path(),
    {
        self.chunk_size = chunk_size;
        self.chunk_overlap = chunk_overlap;
    }

    /// Set the prefix prepended to every text before embedding.
    pub fn set_embedding_prefix(&mut self, prefix: &str)
        requires
            old(self).wf(),
        ensures
            final(self).wf(),
            final(self).spec_prefix() == prefix@,
            final(self).spec_records() == old(self).spec_records(),
            final(self).spec_templates() == old(self).spec_templates(),
            final(self).spec_chunk_size() == old(self).spec_chunk_size(),
            final(self).spec_chunk_overlap() == old(self).spec_chunk_overlap(),
            final(self).spec_k() == old(self).spec_k(),
            final(self).spec_alpha_bits() == old(self).spec_alpha_bits(),
            final(self).spec_max_score_bits() == old(self).spec_max_score_bits(),
            final(self).spec_path() == old(self).spec_path(),
    {
        self.embedding_prefix = prefix.to_owned();
    }

    /// Set the query configuration: result count, hybrid weight and score
    /// ceiling (the latter two in bit encoding).
    pub fn configure_query(&mut self, k: usize, alpha_bits: u32, max_score_bits: u32)
        requires
            old(self).wf(),
        ensures
            final(self).wf(),
            final(self).spec_k() == k,
            final(self).spec_alpha_bits() == alpha_bits,
            final(self).spec_max_score_bits() == max_score_bits,
            final(self).spec_records() == old(self).spec_records(),
            final(self).spec_templates() == old(self).spec_templates(),
            final(self).spec_prefix() == old(self).spec_prefix(),
            final(self).spec_chunk_size() == old(self).spec_chunk_size(),
            final(self).spec_chunk_overlap() == old(self).spec_chunk_overlap(),
            final(self).spec_path() == old(self).spec_path(),
    {
        self.k = k;
        self.alpha_bits = alpha_bits;
        self.max_score_bits = max_score_bits;
    }

    /// The configured chunk size.
    pub fn chunk_size(&self) -> (r: usize)
        ensures
            r == self.spec_chunk_size(),
    {
        self.chunk_size
    }

    /// The configured chunk overlap.
    pub fn chunk_overlap(&self) -> (r: usize)
        ensures
            r == self.spec_chunk_overlap(),
    {
        self.chunk_overlap
    }

    /// The configured maximum number of query results.
    pub fn k(&self) -> (r: usize)
        ensures
            r == self.spec_k(),
    {
        self.k
    }

    /// The configured vector-versus-keyword weight, in bit encoding.
    pub fn alpha_bits(&self) -> (r: u32)
        ensures
            r == self.spec_alpha_bits(),
    {
        self.alpha_bits
    }

    /// The configured score ceiling, in bit encoding.
    pub fn max_score_bits(&self) -> (r: u32)
        ensures
            r == self.spec_max_score_bits(),
    {
        self.max_score_bits
    }

    /// The directory path the store is rooted at, if one was supplied.
    pub fn path(&self) -> (r: &Option<String>)
        ensures
            *r == self.spec_path(),
    {
        &self.path
    }

    /// Split `text` into chunks under the store's configuration.
    pub fn split_text(&self, text: &str) -> (chunks: Vec<String>)
        requires
            self.wf(),
            text@.len() + self.spec_chunk_size() <= usize::MAX,
        ensures
            chunks@.len() == chunk_count(
                text@.len() as int,
                self.spec_chunk_size() as int,
                self.spec_chunk_overlap() as int,
            ),
            forall|i: int|
                0 <= i < chunks@.len() ==> chunks@[i]@ == chunk_seq(
                    text@,
                    self.spec_chunk_size() as int,
                    self.spec_chunk_overlap() as int,
                    i,
                ),
            forall|i: int| 0 <= i < chunks@.len() ==> chunks@[i]@.len() <= self.spec_chunk_size(),
    {
        chunk_text(text, self.chunk_size, self.chunk_overlap)
    }

    /// Plan the insertion of a document: split it into chunks and derive one
    /// record per chunk, in order, with the texts to embed.
    pub fn plan_document(&self, id: &str, text: &str) -> (r: Vec<ChunkPlan>)
        requires
            self.wf(),
            text@.len() + self.spec_chunk_size() <= usize::MAX,
        ensures
            r@.len() == chunk_count(
                text@.len() as int,
                self.spec_chunk_size() as int,
                self.spec_chunk_overlap() as int,
            ),
            forall|i: int|
                0 <= i < r@.len() ==> {
                    &&& r@[i].id@ == chunk_record_id(id@, i as nat)
                    &&& r@[i].seq_index == i
                    &&& r@[i].text@ == chunk_seq(
                        text@,
                        self.spec_chunk_size() as int,
                        self.spec_chunk_overlap() as int,
                        i,
                    )
                    &&& r@[i].tags@.len() == 0
                    &&& r@[i].embed_input@ == embed_text(self.spec_prefix(), r@[i].text@)
                },
    {
        let chunks = self.split_text(text);
        let n = chunks.len();
        let mut r: Vec<ChunkPlan> = Vec::new();
        let mut i: usize = 0;
        while i < n
            invariant
                n == chunks@.len(),
                i <= n,
                self.wf(),
                r@.len() == i,
                forall|j: int|
                    0 <= j < i ==> {
                        &&& r@[j].id@ == chunk_record_id(id@, j as nat)
                        &&& r@[j].seq_index == j
                        &&& r@[j].text@ == chunks@[j]@
                        &&& r@[j].tags@.len() == 0
                        &&& r@[j].embed_input@ == embed_text(self.spec_prefix(), chunks@[j]@)
                    },
            decreases n - i,
        {
            let chunk = &chunks[i];
            let plan = self.make_plan(
                self.derive_chunk_id(id, i).as_str(),
                i,
                chunk.as_str(),
                Vec::new(),
            );
            r.push(plan);
            i = i + 1;
        }
        r
    }

    /// Plan the insertion of a single string under its own id: one record,
    /// sequence index zero, no tags.
    pub fn plan_string(&self, id: &str, text: &str) -> (r: ChunkPlan)
        requires
            self.wf(),
        ensures
            r.id@ == id@,
            r.seq_index == 0,
            r.text@ == text@,
            r.tags@.len() == 0,
            r.embed_input@ == embed_text(self.spec_prefix(), text@),
    {
        self.make_plan(id, 0, text, Vec::new())
    }

    /// Plan the insertion of a tagged document: one record under the
    /// document's own id whose tag fields carry the reserved `tag.` prefix.
    pub fn plan_object(&self, obj: &DeepThoughtObject) -> (r: ChunkPlan)
        requires
            self.wf(),
        ensures
            r.id@ == obj.id@,
            r.seq_index == 0,
            r.text@ == obj.content@,
            r.tags@.len() == obj.tags@.len(),
            forall|i: int|
                0 <= i < r.tags@.len() ==> r.tags@[i].0@ == seq!['t', 'a', 'g', '.']
                    + obj.tags@[i].0@ && r.tags@[i].1@ == obj.tags@[i].1@,
            r.embed_input@ == embed_text(self.spec_prefix(), obj.content@),
    {
        let n = obj.tags.len();
        let mut tags: Vec<(String, String)> = Vec::new();
        let mut i: usize = 0;
        while i < n
            invariant
                n == obj.tags@.len(),
                i <= n,
                tags@.len() == i,
                forall|j: int|
                    0 <= j < i ==> tags@[j].0@ == seq!['t', 'a', 'g', '.'] + obj.tags@[j].0@
                        && tags@[j].1@ == obj.tags@[j].1@,
            decreases n - i,
        {
            let key = "tag.".to_owned().concat(obj.tags[i].0.as_str());
            proof {
                reveal_strlit("tag.");
                assert(key@ =~= seq!['t', 'a', 'g', '.'] + obj.tags@[i as int].0@);
            }
            tags.push((key, obj.tags[i].1.clone()));
            i = i + 1;
        }
        self.make_plan(obj.id.as_str(), 0, obj.content.as_str(), tags)
    }

    /// Derive the record id of chunk `n` of document `id`.
    fn derive_chunk_id(&self, id: &str, n: usize) -> (r: String)
        ensures
            r@ == chunk_record_id(id@, n as nat),
    {
        let digits = usize_decimal(n);
        let r = id.to_owned().concat("-").concat(digits.as_str());
        proof {
            reveal_strlit("-");
            assert(r@ =~= chunk_record_id(id@, n as nat));
        }
        r
    }

    fn make_plan(&self, id: &str, seq_index: usize, text: &str, tags: Vec<(String, String)>) -> (r:
        ChunkPlan)
        ensures
            r.id@ == id@,
            r.seq_index == seq_index,
            r.text@ == text@,
            r.tags == tags,
            r.embed_input@ == embed_text(self.spec_prefix(), text@),
    {
        let embed_input = self.embedding_prefix.clone().concat(" ").concat(text);
        proof {
            reveal_strlit(" ");
            assert(embed_input@ =~= embed_text(self.spec_prefix(), text@));
        }
        ChunkPlan { id: id.to_owned(), seq_index, text: text.to_owned(), tags, embed_input }
    }

    /// Apply one planned upsert after its text has been embedded: the record
    /// is stored live under its id, replacing any previous record there.
    pub fn apply_chunk(&mut self, plan: &ChunkPlan)
        requires
            old(self).wf(),
        ensures
            final(self).wf(),
            final(self).spec_record(plan.id@) matches Some(d) && d.seq_index == plan.seq_index
                && d.text == plan.text && d.tags@ == plan.tags@ && !d.tombstone,
            final(self).spec_live(plan.id@),
            forall|k: Seq<char>|
                k != plan.id@ ==> final(self).spec_record(k) == old(self).spec_record(k),
            final(self).spec_templates() == old(self).spec_templates(),
            final(self).spec_chunk_size() == old(self).spec_chunk_size(),
            final(self).spec_chunk_overlap() == old(self).spec_chunk_overlap(),
            final(self).spec_prefix() == old(self).spec_prefix(),
            final(self).spec_k() == old(self).spec_k(),
            final(self).spec_alpha_bits() == old(self).spec_alpha_bits(),
            final(self).spec_max_score_bits() == old(self).spec_max_score_bits(),
            final(self).spec_path() == old(self).spec_path(),
    {
        let data = RecordData {
            seq_index: plan.seq_index,
            text: plan.text.clone(),
            tags: clone_pairs(&plan.tags),
            tombstone: false,
        };
        self.records.insert(plan.id.as_str(), data);
    }

    /// Soft-delete the record under `id`: it keeps its storage but is
    /// excluded from every query and lookup until compaction.  Deleting an
    /// unknown id has no effect.
    pub fn delete_record(&mut self, id: &str) -> (r: Result<(), DeepThoughtError>)
        requires
            old(self).wf(),
        ensures
            r is Ok,
            final(self).wf(),
            !final(self).spec_live(id@),
            old(self).spec_record(id@) matches Some(d) ==> final(self).spec_record(id@) == Some(
                RecordData { tombstone: true, ..d },
            ),
            old(self).spec_record(id@) is None ==> final(self).spec_record(id@) is None,
            forall|k: Seq<char>|
                k != id@ ==> final(self).spec_record(k) == old(self).spec_record(k),
            final(self).spec_templates() == old(self).spec_templates(),
            final(self).spec_chunk_size() == old(self).spec_chunk_size(),
            final(self).spec_chunk_overlap() == old(self).spec_chunk_overlap(),
            final(self).spec_prefix() == old(self).spec_prefix(),
            final(self).spec_k() == old(self).spec_k(),
            final(self).spec_alpha_bits() == old(self).spec_alpha_bits(),
            final(self).spec_max_score_bits() == old(self).spec_max_score_bits(),
            final(self).spec_path() == old(self).spec_path(),
    {
        match self.records.take(id) {
            Some(d) => {
                let data = RecordData { tombstone: true, ..d };
                self.records.insert(id, data);
            },
            None => {},
        }
        Ok(())
    }

    /// The number of live (non-tombstoned) records.
    pub fn len(&self) -> (r: usize)
        requires
            self.wf(),
        ensures
            r == live_count(self.spec_records().spec_entries()),
    {
        let items = self.records.items();
        let n = items.len();
        let mut count: usize = 0;
        let mut i: usize = 0;
        while i < n
            invariant
                n == items@.len(),
                items@ == self.spec_records().spec_entries(),
                i <= n,
                count <= i,
                count == live_count(items@.subrange(0, i as int)),
            decreases n - i,
        {
            proof {
                assert(items@.subrange(0, i + 1 as int).drop_last() =~= items@.subrange(
                    0,
                    i as int,
                ));
            }
            if !items[i].1.tombstone {
                count = count + 1;
            }
            i = i + 1;
        }
        proof {
            assert(items@.subrange(0, n as int) =~= items@);
        }
        count
    }
}

impl DeepThoughtVecStore {
    /// Whether a raw hit survives filtering: its score does not exceed the
    /// configured ceiling and its id names a live record.
    pub open spec fn keep_hit(&self, h: RawHit) -> bool {
        h.score_bits <= self.spec_max_score_bits() && self.spec_live(h.id@)
    }

    /// The raw hits that survive filtering, in their incoming order.
    pub open spec fn filter_hits(&self, hits: Seq<RawHit>) -> Seq<RawHit>
        decreases hits.len(),
    {
        if hits.len() == 0 {
            Seq::empty()
        } else {
            let rest = self.filter_hits(hits.drop_last());
            if self.keep_hit(hits.last()) {
                rest.push(hits.last())
            } else {
                rest
            }
        }
    }

    /// Every hit that survives filtering satisfies the filter: its score is
    /// at most the ceiling and its record is live.
    pub proof fn lemma_filter_hits_sound(&self, hits: Seq<RawHit>)
        ensures
            forall|i: int|
                0 <= i < self.filter_hits(hits).len() ==> self.keep_hit(
                    #[trigger] self.filter_hits(hits)[i],
                ),
        decreases hits.len(),
    {
        if hits.len() > 0 {
            self.lemma_filter_hits_sound(hits.drop_last());
            let rest = self.filter_hits(hits.drop_last());
            let f = self.filter_hits(hits);
            assert forall|i: int| 0 <= i < f.len() implies self.keep_hit(f[i]) by {
                if i < rest.len() {
                    assert(f[i] == rest[i]);
                } else {
                    assert(f[i] == hits.last());
                }
            }
        }
    }

    /// Score ceiling: no hit above the configured maximum score survives
    /// filtering, whatever the raw results were.
    pub proof fn lemma_score_ceiling(&self, hits: Seq<RawHit>)
        ensures
            forall|i: int|
                0 <= i < self.filter_hits(hits).len() ==> (#[trigger] self.filter_hits(
                    hits,
                )[i]).score_bits <= self.spec_max_score_bits(),
    {
        self.lemma_filter_hits_sound(hits);
    }

    /// Tombstone exclusion: once an id is not live — deleted, or never
    /// stored — no query result carries it, whatever the raw results were.
    pub proof fn lemma_tombstone_excluded(&self, hits: Seq<RawHit>, id: Seq<char>)
        requires
            !self.spec_live(id),
        ensures
            forall|i: int|
                0 <= i < self.filter_hits(hits).len() ==> (#[trigger] self.filter_hits(
                    hits,
                )[i]).id@ != id,
    {
        self.lemma_filter_hits_sound(hits);
    }

    /// How a neighbor is built from a surviving hit: the score fields come
    /// from the hit, the snapshot fields from the live record it names.
    pub open spec fn neighbor_matches(&self, h: RawHit, n: DeepThoughtNeighbor) -> bool {
        &&& n.id == h.id
        &&& n.score_bits == h.score_bits
        &&& n.score_text == h.score_text
        &&& self.spec_record(h.id@) matches Some(d) && n.seq_index == d.seq_index && n.text
            == d.text && n.tags@ == d.tags@
    }

    fn filtered_hits(&self, raw: &Vec<RawHit>) -> (r: Vec<RawHit>)
        requires
            self.wf(),
        ensures
            r@ == self.filter_hits(raw@),
    {
        let n = raw.len();
        let mut r: Vec<RawHit> = Vec::new();
        let mut i: usize = 0;
        while i < n
            invariant
                n == raw@.len(),
                i <= n,
                self.wf(),
                r@ == self.filter_hits(raw@.subrange(0, i as int)),
            decreases n - i,
        {
            proof {
                assert(raw@.subrange(0, i + 1 as int).drop_last() =~= raw@.subrange(0, i as int));
                assert(raw@.subrange(0, i + 1 as int).last() == raw@[i as int]);
            }
            let hit = &raw[i];
            if hit.score_bits <= self.max_score_bits {
                let live = match self.records.get(hit.id.as_str()) {
                    Some(d) => !d.tombstone,
                    None => false,
                };
                if live {
                    let copy = RawHit {
                        id: hit.id.clone(),
                        score_bits: hit.score_bits,
                        score_text: hit.score_text.clone(),
                    };
                    proof {
                        assert(copy == raw@[i as int]);
                    }
                    r.push(copy);
                }
            }
            i = i + 1;
        }
        proof {
            assert(raw@.subrange(0, n as int) =~= raw@);
        }
        r
    }

    /// Turn the raw results of the hybrid index into neighbors: drop every
    /// hit whose score exceeds the ceiling or whose record is not live, keep
    /// the incoming order, return at most `k`, and snapshot each surviving
    /// record's metadata.
    pub fn query_neighbors(&self, raw: &Vec<RawHit>) -> (r: Vec<DeepThoughtNeighbor>)
        requires
            self.wf(),
        ensures
            ({
                let f = self.filter_hits(raw@);
                &&& r@.len() == if f.len() <= self.spec_k() {
                    f.len() as int
                } else {
                    self.spec_k() as int
                }
                &&& forall|i: int|
                    0 <= i < r@.len() ==> self.neighbor_matches(f[i], #[trigger] r@[i])
            }),
            forall|i: int|
                0 <= i < r@.len() ==> (#[trigger] r@[i]).score_bits <= self.spec_max_score_bits(),
            forall|i: int| 0 <= i < r@.len() ==> self.spec_live((#[trigger] r@[i]).id@),
    {
        let mut hits = self.filtered_hits(raw);
        proof {
            self.lemma_filter_hits_sound(raw@);
        }
        hits.truncate(self.k);
        let n = hits.len();
        let ghost f = self.filter_hits(raw@);
        let mut r: Vec<DeepThoughtNeighbor> = Vec::new();
        let mut i: usize = 0;
        while i < n
            invariant
                n == hits@.len(),
                i <= n,
                self.wf(),
                r@.len() == i,
                forall|j: int| 0 <= j < n ==> hits@[j] == f[j] && self.keep_hit(f[j]),
                forall|j: int| 0 <= j < i ==> self.neighbor_matches(f[j], #[trigger] r@[j]),
            decreases n - i,
        {
            let hit = &hits[i];
            match self.records.get(hit.id.as_str()) {
                Some(d) => {
                    let neighbor = DeepThoughtNeighbor {
                        id: hit.id.clone(),
                        score_bits: hit.score_bits,
                        score_text: hit.score_text.clone(),
                        seq_index: d.seq_index,
                        text: d.text.clone(),
                        tags: clone_pairs(&d.tags),
                    };
                    r.push(neighbor);
                },
                None => {
                    proof {
                        assert(hits@[i as int] == f[i as int] && self.keep_hit(f[i as int]));
                        assert(self.spec_live(f[i as int].id@));
                        assert(false);
                    }
                },
            }
            i = i + 1;
        }
        r
    }

    /// The texts of the neighbors a query returns, in result order.
    pub fn query(&self, raw: &Vec<RawHit>) -> (r: Vec<String>)
        requires
            self.wf(),
        ensures
            ({
                let f = self.filter_hits(raw@);
                &&& r@.len() == if f.len() <= self.spec_k() {
                    f.len() as int
                } else {
                    self.spec_k() as int
                }
                &&& forall|i: int|
                    0 <= i < r@.len() ==> (#[trigger] r@[i])@ == self.spec_record(
                        f[i].id@,
                    )->Some_0.text@
            }),
    {
        let neighbors = self.query_neighbors(raw);
        let n = neighbors.len();
        let ghost f = self.filter_hits(raw@);
        let mut r: Vec<String> = Vec::new();
        let mut i: usize = 0;
        while i < n
            invariant
                n == neighbors@.len(),
                i <= n,
                r@.len() == i,
                forall|j: int| 0 <= j < n ==> self.neighbor_matches(f[j], #[trigger] neighbors@[j]),
                forall|j: int|
                    0 <= j < i ==> (#[trigger] r@[j])@ == self.spec_record(f[j].id@)->Some_0.text@,
            decreases n - i,
        {
            r.push(neighbors[i].text.clone());
            i = i + 1;
        }
        r
    }

    /// The stored text under `id`; a tombstoned or unknown id is not found.
    pub fn get(&self, id: &str) -> (r: Result<String, DeepThoughtError>)
        requires
            self.wf(),
        ensures
            self.spec_live(id@) ==> (r matches Ok(t) && t == self.spec_record(id@)->Some_0.text),
            !self.spec_live(id@) ==> (r matches Err(e) && e is NotFound),
    {
        match self.records.get(id) {
            Some(d) => {
                if d.tombstone {
                    Err(DeepThoughtError::NotFound("No text found for id".to_owned()))
                } else {
                    Ok(d.text.clone())
                }
            },
            None => Err(DeepThoughtError::NotFound("No text found for id".to_owned())),
        }
    }
}

/// The context a neighbor is rendered against: its id, the display text of
/// its score, and its text.
pub open spec fn output_context(n: DeepThoughtNeighbor) -> Map<Seq<char>, Seq<char>> {
    Map::empty().insert("id"@, n.id@).insert("score"@, n.score_text@).insert("text"@, n.text@)
}

/// The context a surviving raw hit is rendered against: the same map that
/// the neighbor built from it yields.
pub open spec fn output_context_of(st: DeepThoughtVecStore, h: RawHit) -> Map<Seq<char>, Seq<char>> {
    Map::empty().insert("id"@, h.id@).insert("score"@, h.score_text@).insert(
        "text"@,
        st.spec_record(h.id@)->Some_0.text@,
    )
}

impl DeepThoughtVecStore {
    /// Register an output template under `name`, overwriting any previous
    /// one.
    pub fn register_template(&mut self, name: &str, template: &str) -> (r: Result<
        (),
        DeepThoughtError,
    >)
        requires
            old(self).wf(),
        ensures
            r is Ok,
            final(self).wf(),
            final(self).spec_templates().spec_get(name@) matches Some(t) && t@ == template@,
            forall|k: Seq<char>|
                k != name@ ==> final(self).spec_templates().spec_get(k) == old(
                    self,
                ).spec_templates().spec_get(k),
            final(self).spec_records() == old(self).spec_records(),
            final(self).spec_chunk_size() == old(self).spec_chunk_size(),
            final(self).spec_chunk_overlap() == old(self).spec_chunk_overlap(),
            final(self).spec_prefix() == old(self).spec_prefix(),
            final(self).spec_k() == old(self).spec_k(),
            final(self).spec_alpha_bits() == old(self).spec_alpha_bits(),
            final(self).spec_max_score_bits() == old(self).spec_max_score_bits(),
            final(self).spec_path() == old(self).spec_path(),
    {
        self.templates.insert(name, template.to_owned());
        Ok(())
    }

    /// Render one neighbor through the named template: an unknown template
    /// name is not found, and a rendering failure is a collaborator error.
    pub fn output(&self, name: &str, n: &DeepThoughtNeighbor) -> (r: Result<
        String,
        DeepThoughtError,
    >)
        requires
            self.wf(),
        ensures
            self.spec_templates().spec_get(name@) is None ==> (r matches Err(e) && e is NotFound),
            self.spec_templates().spec_get(name@) matches Some(tpl) ==> match rendered(
                tpl@,
                output_context(*n),
            ) {
                Some(s) => r matches Ok(t) && t@ == s,
                None => r matches Err(e) && e is Collaborator,
            },
    {
        let tpl = match self.templates.get(name) {
            Some(t) => t,
            None => {
                return Err(DeepThoughtError::NotFound("Template not found".to_owned()));
            },
        };
        let mut ctx: Vec<(String, String)> = Vec::new();
        let ghost c0 = ctx@;
        ctx.push(("id".to_owned(), n.id.clone()));
        let ghost c1 = ctx@;
        ctx.push(("score".to_owned(), n.score_text.clone()));
        let ghost c2 = ctx@;
        ctx.push(("text".to_owned(), n.text.clone()));
        proof {
            reveal_strlit("id");
            reveal_strlit("score");
            reveal_strlit("text");
            assert(c0.len() == 0);
            assert(c1.drop_last() =~= c0);
            assert(c2.drop_last() =~= c1);
            assert(ctx@.drop_last() =~= c2);
            let m0 = Map::<Seq<char>, Seq<char>>::empty();
            let m1 = m0.insert("id"@, n.id@);
            let m2 = m1.insert("score"@, n.score_text@);
            assert(pairs_as_map(c0) =~= m0);
            assert(pairs_as_map(c1) =~= m1);
            assert(pairs_as_map(c2) =~= m2);
            assert(pairs_as_map(ctx@) =~= output_context(*n));
        }
        template(tpl.as_str(), &ctx)
    }

    /// Optimize and persist the store.  The logical effect is compaction:
    /// every tombstoned record's storage is reclaimed, every live record
    /// survives unchanged.
    pub fn save_vectorstore(&mut self) -> (r: Result<(), DeepThoughtError>)
        requires
            old(self).wf(),
        ensures
            r is Ok,
            final(self).wf(),
            forall|k: Seq<char>|
                old(self).spec_live(k) ==> final(self).spec_record(k) == old(self).spec_record(k),
            forall|k: Seq<char>|
                !old(self).spec_live(k) ==> final(self).spec_record(k) is None,
            final(self).spec_templates() == old(self).spec_templates(),
            final(self).spec_chunk_size() == old(self).spec_chunk_size(),
            final(self).spec_chunk_overlap() == old(self).spec_chunk_overlap(),
            final(self).spec_prefix() == old(self).spec_prefix(),
            final(self).spec_k() == old(self).spec_k(),
            final(self).spec_alpha_bits() == old(self).spec_alpha_bits(),
            final(self).spec_max_score_bits() == old(self).spec_max_score_bits(),
            final(self).spec_path() == old(self).spec_path(),
    {
        let dead = self.tombstoned_ids();
        let n = dead.len();
        let ghost pre = *self;
        let mut i: usize = 0;
        while i < n
            invariant
                n == dead@.len(),
                i <= n,
                self.wf(),
                forall|j: int|
                    0 <= j < n ==> (pre.spec_record(#[trigger] dead@[j]@) matches Some(d)
                        && d.tombstone),
                forall|k: Seq<char>|
                    (exists|j: int| 0 <= j < i && dead@[j]@ == k) ==> (#[trigger] self.spec_record(
                        k,
                    )) is None,
                forall|k: Seq<char>|
                    !(exists|j: int| 0 <= j < i && dead@[j]@ == k) ==> self.spec_record(k)
                        == pre.spec_record(k),
                self.spec_templates() == pre.spec_templates(),
                self.spec_chunk_size() == pre.spec_chunk_size(),
                self.spec_chunk_overlap() == pre.spec_chunk_overlap(),
                self.spec_prefix() == pre.spec_prefix(),
                self.spec_k() == pre.spec_k(),
                self.spec_alpha_bits() == pre.spec_alpha_bits(),
                self.spec_max_score_bits() == pre.spec_max_score_bits(),
                self.spec_path() == pre.spec_path(),
            decreases n - i,
        {
            let _ = self.records.take(dead[i].as_str());
            i = i + 1;
        }
        proof {
            assert forall|k: Seq<char>| !pre.spec_live(k) implies self.spec_record(k) is None by {
                if pre.spec_record(k) is Some {
                    pre.spec_records().lemma_binding_entry(k);
                }
            }
        }
        Ok(())
    }

    /// The ids of all tombstoned records: every one of them is tombstoned,
    /// and every tombstoned record's id is among them.
    fn tombstoned_ids(&self) -> (r: Vec<String>)
        requires
            self.wf(),
        ensures
            forall|j: int|
                0 <= j < r@.len() ==> (self.spec_record(#[trigger] r@[j]@) matches Some(d)
                    && d.tombstone),
            forall|k: Seq<char>|
                ((#[trigger] self.spec_record(k)) matches Some(d) && d.tombstone) ==> exists|j: int|
                    0 <= j < r@.len() && (#[trigger] r@[j])@ == k,
    {
        let items = self.records.items();
        let n = items.len();
        let mut r: Vec<String> = Vec::new();
        let mut i: usize = 0;
        while i < n
            invariant
                n == items@.len(),
                i <= n,
                self.wf(),
                items@ == self.spec_records().spec_entries(),
                forall|j: int|
                    0 <= j < r@.len() ==> (self.spec_record(#[trigger] r@[j]@) matches Some(d)
                        && d.tombstone),
                forall|e: int|
                    0 <= e < i && items@[e].1.tombstone ==> exists|j: int|
                        0 <= j < r@.len() && r@[j]@ == #[trigger] items@[e].0@,
            decreases n - i,
        {
            if items[i].1.tombstone {
                proof {
                    self.spec_records().lemma_entry_binding(i as int);
                }
                let ghost before = r@;
                r.push(items[i].0.clone());
                proof {
                    assert(r@[r@.len() - 1]@ == items@[i as int].0@);
                    assert forall|e: int|
                        0 <= e < i + 1 && items@[e].1.tombstone implies exists|j: int|
                        0 <= j < r@.len() && r@[j]@ == #[trigger] items@[e].0@ by {
                        if e < i {
                            let j = choose|j: int| 0 <= j < before.len() && before[j]@ == items@[e].0@;
                            assert(r@[j]@ == items@[e].0@);
                        } else {
                            assert(r@[r@.len() - 1]@ == items@[e].0@);
                        }
                    }
                }
            }
            i = i + 1;
        }
        proof {
            assert forall|k: Seq<char>|
                (#[trigger] self.spec_record(k)) matches Some(d) && d.tombstone implies exists|j: int|
                0 <= j < r@.len() && (#[trigger] r@[j])@ == k by {
                self.spec_records().lemma_binding_entry(k);
            }
        }
        r
    }
}

/// A pairwise copy of a list of string pairs.
fn clone_pairs(v: &Vec<(String, String)>) -> (r: Vec<(String, String)>)
    ensures
        r@ == v@,
{
    let n = v.len();
    let mut r: Vec<(String, String)> = Vec::new();
    let mut i: usize = 0;
    while i < n
        invariant
            n == v@.len(),
            i <= n,
            r@.len() == i,
            forall|j: int| 0 <= j < i ==> r@[j] == v@[j],
        decreases n - i,
    {
        r.push((v[i].0.clone(), v[i].1.clone()));
        i = i + 1;
    }
    proof {
        assert(r@ =~= v@);
    }
    r
}

} // verus!
