//! Catalog ingestion and lookup on the router.
//!
//! The catalog is the router's shared knowledge store of tagged documents.
//! Adding to it is planned here and applied after the embedding collaborator
//! has produced the vector; querying filters the collaborator's raw results
//! through the verified store.

use vstd::prelude::*;
use vstd::string::StringExecFns;

use crate::DeepThoughtError;
use crate::decimal::usize_decimal;
use crate::object::DeepThoughtObject;
use crate::router::DeepThoughtRouter;
use crate::store::{ChunkPlan, RawHit, embed_text};

verus! {

/// A catalog query result: the record's id, its score in bit encoding with
/// its display text, and the record's metadata snapshot as string fields.
pub struct VecStoreNeighbors {
    pub id: String,
    pub score_bits: u32,
    pub score_text: String,
    pub metadata: Vec<(String, String)>,
}

/// The metadata snapshot a catalog neighbor carries for the record `d`
/// found under hit `h`: the record's id, its sequence index in decimal, its
/// text, and then the record's tag fields in order.
pub open spec fn catalog_metadata_ok(
    d: crate::store::RecordData,
    h: RawHit,
    m: Seq<(String, String)>,
) -> bool {
    &&& m.len() == 3 + d.tags@.len()
    &&& m[0].0@ == "id"@ && m[0].1@ == h.id@
    &&& m[1].0@ == "n"@ && m[1].1@ == crate::decimal::spec_decimal(d.seq_index as nat)
    &&& m[2].0@ == "text"@ && m[2].1@ == d.text@
    &&& forall|j: int|
        0 <= j < d.tags@.len() ==> (#[trigger] m[3 + j]).0@ == d.tags@[j].0@ && m[3 + j].1@
            == d.tags@[j].1@
}

/// One planned metadata tag field: the reserved prefix and the tag key, and
/// the tag value.
pub open spec fn tag_pair(pair: (String, String), key: Seq<char>, value: Seq<char>) -> bool {
    pair.0@ == seq!['t', 'a', 'g', '.'] + key && pair.1@ == value
}

impl DeepThoughtRouter {
    /// Plan adding a document to the catalog under a tag marking it as a
    /// URL entry.
    pub fn add_url_to_catalog(&mut self, doc: &str, url: &str) -> (r: Result<
        ChunkPlan,
        DeepThoughtError,
    >)
        requires
            old(self).wf(),
        ensures
            final(self).wf(),
            *final(self) == *old(self),
            old(self).embed_model is None ==> (r matches Err(e) && e is Configuration),
            old(self).embed_model is Some && old(self).catalog is None ==> (r matches Err(e)
                && e is Configuration),
            old(self).embed_model is Some && old(self).catalog is Some ==> (r matches Ok(plan)
                && plan.text@ == doc@ && plan.tags@.len() == 2 && tag_pair(
                plan.tags@[0],
                "url"@,
                url@,
            ) && tag_pair(plan.tags@[1], "type"@, "url"@)),
    {
        let mut obj = DeepThoughtObject::from_str(doc);
        obj.set_tag("url", url);
        obj.set_tag("type", "url");
        proof {
            assert(obj.tags@[0].0@ == "url"@ && obj.tags@[0].1@ == url@);
            assert(obj.tags@[1].0@ == "type"@ && obj.tags@[1].1@ == "url"@);
        }
        self.add_object_to_catalog(&obj)
    }

    /// Plan adding a document to the catalog under tags marking it as an
    /// endpoint entry.
    pub fn add_endpoint_to_catalog(&mut self, endpoint_type: &str, doc: &str, url: &str) -> (r:
        Result<ChunkPlan, DeepThoughtError>)
        requires
            old(self).wf(),
        ensures
            final(self).wf(),
            *final(self) == *old(self),
            old(self).embed_model is None ==> (r matches Err(e) && e is Configuration),
            old(self).embed_model is Some && old(self).catalog is None ==> (r matches Err(e)
                && e is Configuration),
            old(self).embed_model is Some && old(self).catalog is Some ==> (r matches Ok(plan)
                && plan.text@ == doc@ && plan.tags@.len() == 3 && tag_pair(
                plan.tags@[0],
                "url"@,
                url@,
            ) && tag_pair(plan.tags@[1], "endpoint_type"@, endpoint_type@) && tag_pair(
                plan.tags@[2],
                "type"@,
                "endpoint"@,
            )),
    {
        let mut obj = DeepThoughtObject::from_str(doc);
        obj.set_tag("url", url);
        obj.set_tag("endpoint_type", endpoint_type);
        obj.set_tag("type", "endpoint");
        proof {
            assert(obj.tags@[0].0@ == "url"@ && obj.tags@[0].1@ == url@);
            assert(obj.tags@[1].0@ == "endpoint_type"@ && obj.tags@[1].1@ == endpoint_type@);
            assert(obj.tags@[2].0@ == "type"@ && obj.tags@[2].1@ == "endpoint"@);
        }
        self.add_object_to_catalog(&obj)
    }

    /// Plan adding a document to the catalog under a tag naming the route
    /// it describes.
    pub fn add_route_to_catalog(&mut self, doc: &str, route: &str) -> (r: Result<
        ChunkPlan,
        DeepThoughtError,
    >)
        requires
            old(self).wf(),
        ensures
            final(self).wf(),
            *final(self) == *old(self),
            old(self).embed_model is None ==> (r matches Err(e) && e is Configuration),
            old(self).embed_model is Some && old(self).catalog is None ==> (r matches Err(e)
                && e is Configuration),
            old(self).embed_model is Some && old(self).catalog is Some ==> (r matches Ok(plan)
                && plan.text@ == doc@ && plan.tags@.len() == 2 && tag_pair(
                plan.tags@[0],
                "route"@,
                route@,
            ) && tag_pair(plan.tags@[1], "type"@, "route"@)),
    {
        let mut obj = DeepThoughtObject::from_str(doc);
        obj.set_tag("route", route);
        obj.set_tag("type", "route");
        proof {
            assert(obj.tags@[0].0@ == "route"@ && obj.tags@[0].1@ == route@);
            assert(obj.tags@[1].0@ == "type"@ && obj.tags@[1].1@ == "route"@);
        }
        self.add_object_to_catalog(&obj)
    }

    /// Plan adding a tagged document to the catalog: the embedding model and
    /// the catalog must both be configured; the plan stores the document
    /// under its own id with its tags as reserved-prefix metadata fields.
    pub fn add_object_to_catalog(&mut self, obj: &DeepThoughtObject) -> (r: Result<
        ChunkPlan,
        DeepThoughtError,
    >)
        requires
            old(self).wf(),
        ensures
            final(self).wf(),
            *final(self) == *old(self),
            old(self).embed_model is None ==> (r matches Err(e) && e is Configuration),
            old(self).embed_model is Some && old(self).catalog is None ==> (r matches Err(e)
                && e is Configuration),
            old(self).catalog matches Some(c) ==> (old(self).embed_model is Some ==> (r matches Ok(
                plan,
            ) && plan.id@ == obj.id@ && plan.text@ == obj.content@ && plan.tags@.len()
                == obj.tags@.len() && (forall|i: int|
                0 <= i < plan.tags@.len() ==> tag_pair(
                    #[trigger] plan.tags@[i],
                    obj.tags@[i].0@,
                    obj.tags@[i].1@,
                )) && plan.embed_input@ == embed_text(c.spec_prefix(), obj.content@))),
    {
        if self.embed_model.is_none() {
            return Err(DeepThoughtError::Configuration("Embedding model not set".to_owned()));
        }
        match &self.catalog {
            Some(catalog) => Ok(catalog.plan_object(obj)),
            None => Err(DeepThoughtError::Configuration("Vector store not set".to_owned())),
        }
    }

    /// Apply one planned catalog upsert, after its text has been embedded.
    pub fn apply_catalog_chunk(&mut self, plan: &ChunkPlan) -> (r: Result<(), DeepThoughtError>)
        requires
            old(self).wf(),
        ensures
            final(self).wf(),
            old(self).catalog is None ==> (r matches Err(e) && e is Configuration && *final(self)
                == *old(self)),
            old(self).catalog matches Some(c) ==> (r is Ok && (final(self).catalog matches Some(d)
                && d.spec_live(plan.id@) && (forall|k: Seq<char>|
                k != plan.id@ ==> d.spec_record(k) == c.spec_record(k)))),
            final(self).routes == old(self).routes,
            final(self).sessions == old(self).sessions,
    {
        match &mut self.catalog {
            Some(catalog) => {
                catalog.apply_chunk(plan);
                Ok(())
            },
            None => Err(DeepThoughtError::Configuration("Vector store not set".to_owned())),
        }
    }

    /// The text to embed for a catalog query: the router's query prefix, a
    /// space, and the query.
    pub fn catalog_query_input(&self, q: &str) -> (r: Result<String, DeepThoughtError>)
        ensures
            self.embed_model is None ==> (r matches Err(e) && e is Configuration),
            self.embed_model is Some ==> (r matches Ok(s) && s@ == embed_text(
                self.embedding_query_prefix@,
                q@,
            )),
    {
        if self.embed_model.is_none() {
            return Err(DeepThoughtError::Configuration("Embedding model not set".to_owned()));
        }
        let s = self.embedding_query_prefix.clone().concat(" ").concat(q);
        proof {
            reveal_strlit(" ");
            assert(s@ =~= embed_text(self.embedding_query_prefix@, q@));
        }
        Ok(s)
    }

    /// Filter the raw results of the catalog's hybrid index and project each
    /// surviving record into a neighbor with its metadata snapshot.
    pub fn query_catalog(&self, raw: &Vec<RawHit>) -> (r: Result<
        Vec<VecStoreNeighbors>,
        DeepThoughtError,
    >)
        requires
            self.wf(),
        ensures
            self.embed_model is None ==> (r matches Err(e) && e is Configuration),
            self.embed_model is Some && self.catalog is None ==> (r matches Err(e)
                && e is Configuration),
            self.catalog matches Some(c) ==> (self.embed_model is Some ==> (r matches Ok(ns) && {
                let f = c.filter_hits(raw@);
                &&& ns@.len() == if f.len() <= c.spec_k() {
                    f.len() as int
                } else {
                    c.spec_k() as int
                }
                &&& forall|i: int|
                    0 <= i < ns@.len() ==> (#[trigger] ns@[i]).id@ == f[i].id@ && ns@[i].score_bits
                        == f[i].score_bits && ns@[i].score_text@ == f[i].score_text@
                        && catalog_metadata_ok(
                        c.spec_record(f[i].id@)->Some_0,
                        f[i],
                        ns@[i].metadata@,
                    )
            })),
    {
        if self.embed_model.is_none() {
            return Err(DeepThoughtError::Configuration("Embedding model not set".to_owned()));
        }
        let catalog = match &self.catalog {
            Some(catalog) => catalog,
            None => {
                return Err(DeepThoughtError::Configuration("Vector store not set".to_owned()));
            },
        };
        let neighbors = catalog.query_neighbors(raw);
        let ghost f = catalog.filter_hits(raw@);
        let n = neighbors.len();
        let mut result: Vec<VecStoreNeighbors> = Vec::new();
        let mut i: usize = 0;
        while i < n
            invariant
                n == neighbors@.len(),
                i <= n,
                result@.len() == i,
                forall|j: int|
                    0 <= j < n ==> catalog.neighbor_matches(f[j], #[trigger] neighbors@[j]),
                forall|j: int|
                    0 <= j < i ==> (#[trigger] result@[j]).id@ == f[j].id@ && result@[j].score_bits
                        == f[j].score_bits && result@[j].score_text@ == f[j].score_text@
                        && catalog_metadata_ok(
                        catalog.spec_record(f[j].id@)->Some_0,
                        f[j],
                        result@[j].metadata@,
                    ),
            decreases n - i,
        {
            let neighbor = &neighbors[i];
            let ghost d = catalog.spec_record(f[i as int].id@)->Some_0;
            let mut metadata: Vec<(String, String)> = Vec::new();
            metadata.push(("id".to_owned(), neighbor.id.clone()));
            metadata.push(("n".to_owned(), usize_decimal(neighbor.seq_index)));
            metadata.push(("text".to_owned(), neighbor.text.clone()));
            proof {
                reveal_strlit("id");
                reveal_strlit("n");
                reveal_strlit("text");
            }
            let mut t: usize = 0;
            let tag_count = neighbor.tags.len();
            while t < tag_count
                invariant
                    tag_count == neighbor.tags@.len(),
                    t <= tag_count,
                    neighbor.tags@ == d.tags@,
                    neighbor.id@ == f[i as int].id@,
                    neighbor.seq_index == d.seq_index,
                    neighbor.text@ == d.text@,
                    metadata@.len() == 3 + t,
                    metadata@[0].0@ == "id"@ && metadata@[0].1@ == f[i as int].id@,
                    metadata@[1].0@ == "n"@ && metadata@[1].1@ == crate::decimal::spec_decimal(
                        d.seq_index as nat,
                    ),
                    metadata@[2].0@ == "text"@ && metadata@[2].1@ == d.text@,
                    forall|j: int|
                        0 <= j < t ==> (#[trigger] metadata@[3 + j]).0@ == d.tags@[j].0@
                            && metadata@[3 + j].1@ == d.tags@[j].1@,
                decreases tag_count - t,
            {
                metadata.push((neighbor.tags[t].0.clone(), neighbor.tags[t].1.clone()));
                t = t + 1;
            }
            proof {
                assert(catalog_metadata_ok(d, f[i as int], metadata@));
            }
            result.push(
                VecStoreNeighbors {
                    id: neighbor.id.clone(),
                    score_bits: neighbor.score_bits,
                    score_text: neighbor.score_text.clone(),
                    metadata,
                },
            );
            i = i + 1;
        }
        Ok(result)
    }
}

} // verus!
