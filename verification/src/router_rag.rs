//! Retrieval-augmented generation plumbing on the router.
//!
//! The router looks the route up, filters the raw retrieval results through
//! the route's verified store, renders each surviving neighbor, and appends
//! the rendered context to the route's conversation; dispatching the
//! augmented conversation to the inference collaborator is the caller's
//! step.

use vstd::prelude::*;

use crate::DeepThoughtError;
use crate::route::RagBundle;
use crate::router::DeepThoughtRouter;
use crate::store::RawHit;

verus! {

impl DeepThoughtRouter {
    /// Filter raw retrieval results through the named route's store and
    /// hand back the stored texts, best score first.
    pub fn query_vecstore(&self, route_name: &str, raw: &Vec<RawHit>) -> (r: Result<
        Vec<String>,
        DeepThoughtError,
    >)
        requires
            self.wf(),
        ensures
            self.routes.spec_get(route_name@) is None ==> (r matches Err(e) && e is NotFound),
            self.routes.spec_get(route_name@) matches Some(rt) ==> {
                &&& rt.spec_vecstore() is None ==> (r matches Err(e) && e is Configuration)
                &&& rt.spec_vecstore() matches Some(s) ==> (r matches Ok(texts) && {
                    let f = s.filter_hits(raw@);
                    texts@.len() == if f.len() <= s.spec_k() {
                        f.len() as int
                    } else {
                        s.spec_k() as int
                    }
                })
            },
    {
        let model = match self.get_route(route_name) {
            Some(model) => model,
            None => {
                return Err(DeepThoughtError::NotFound("Route not found".to_owned()));
            },
        };
        model.query_vecstore(raw)
    }

    /// Filter raw retrieval results through the named route's store, render
    /// each surviving neighbor through the named template, and bundle the
    /// rendered strings with the query.
    pub fn query_vecstore_templated(
        &self,
        route_name: &str,
        template_name: &str,
        raw: &Vec<RawHit>,
        query: &str,
    ) -> (r: Result<RagBundle, DeepThoughtError>)
        requires
            self.wf(),
        ensures
            self.routes.spec_get(route_name@) is None ==> (r matches Err(e) && e is NotFound),
            r matches Ok(b) ==> b.query@ == query@,
            self.routes.spec_get(route_name@) matches Some(rt) ==> {
                &&& rt.spec_vecstore() is None ==> (r matches Err(e) && e is Configuration)
                &&& rt.spec_vecstore() matches Some(s) ==> {
                    let f = s.filter_hits(raw@);
                    let count = if f.len() <= s.spec_k() {
                        f.len() as int
                    } else {
                        s.spec_k() as int
                    };
                    &&& (s.spec_templates().spec_get(template_name@) is None && count > 0) ==> (
                    r matches Err(e) && e is NotFound)
                    &&& r matches Err(e) ==> crate::route::templated_query_err(
                        s,
                        raw@,
                        template_name@,
                        e,
                    )
                    &&& r matches Ok(b) ==> {
                        &&& b.rag@.len() == count
                        &&& forall|i: int|
                            0 <= i < b.rag@.len() ==> crate::template::rendered(
                                s.spec_templates().spec_get(template_name@)->Some_0@,
                                crate::store::output_context_of(s, f[i]),
                            ) == Some((#[trigger] b.rag@[i])@)
                    }
                }
            },
    {
        let model = match self.get_route(route_name) {
            Some(model) => model,
            None => {
                return Err(DeepThoughtError::NotFound("Route not found".to_owned()));
            },
        };
        model.query_templated(raw, template_name, query)
    }

    /// Append every rendered context string of `bundle` to the named
    /// route's conversation as assistant messages, in order, so that the
    /// next chat dispatch sees the retrieved knowledge.
    pub fn rag_augment(&mut self, route_name: &str, bundle: &RagBundle) -> (r: Result<
        (),
        DeepThoughtError,
    >)
        requires
            old(self).wf(),
        ensures
            final(self).wf(),
            old(self).routes.spec_get(route_name@) is None ==> (r matches Err(e) && e is NotFound
                && *final(self) == *old(self)),
            old(self).routes.spec_get(route_name@) matches Some(rt) ==> ((match rt.spec_context().spec_max() {
                Some(m) => rt.spec_context().spec_messages().len() + bundle.rag@.len() <= m + 1,
                None => true,
            }) ==> r is Ok),
            old(self).routes.spec_get(route_name@) matches Some(rt) ==> (r matches Err(e)
                ==> e is Capacity),
            old(self).routes.spec_get(route_name@) matches Some(rt) ==> (final(self).routes.spec_get(route_name@) matches Some(rt2) && (r is Ok ==> {
                let before = rt.spec_context().spec_messages();
                let after = rt2.spec_context().spec_messages();
                &&& after.len() == before.len() + bundle.rag@.len()
                &&& after.subrange(0, before.len() as int) == before
                &&& forall|j: int|
                    0 <= j < bundle.rag@.len() ==> (#[trigger] after[before.len() + j]).role
                        == crate::context::Role::Assistant && after[before.len() + j].text@
                        == bundle.rag@[j]@
            })),
            forall|k: Seq<char>|
                k != route_name@ ==> final(self).routes.spec_get(k) == old(self).routes.spec_get(
                    k,
                ),
            final(self).sessions == old(self).sessions,
            final(self).catalog == old(self).catalog,
    {
        let mut route = match self.take_route(route_name) {
            Some(route) => route,
            None => {
                return Err(DeepThoughtError::NotFound("Route not found".to_owned()));
            },
        };
        let n = bundle.rag.len();
        let ghost base_msgs = route.spec_context().spec_messages();
        let ghost base = base_msgs.len();
        let mut i: usize = 0;
        while i < n
            invariant
                n == bundle.rag@.len(),
                i <= n,
                route.wf(),
                route.spec_context().spec_max() == old(self).routes.spec_get(
                    route_name@,
                )->Some_0.spec_context().spec_max(),
                base == old(self).routes.spec_get(
                    route_name@,
                )->Some_0.spec_context().spec_messages().len(),
                route.spec_context().spec_messages().len() == base + i,
                route.spec_context().spec_messages().subrange(0, base as int) == base_msgs,
                forall|j: int|
                    0 <= j < i ==> (#[trigger] route.spec_context().spec_messages()[base + j]).role
                        == crate::context::Role::Assistant
                        && route.spec_context().spec_messages()[base + j].text@
                        == bundle.rag@[j]@,
                self.wf(),
                old(self).routes.spec_get(route_name@) is Some,
                self.routes.spec_get(route_name@) is None,
                forall|k: Seq<char>|
                    k != route_name@ ==> self.routes.spec_get(k) == old(self).routes.spec_get(k),
                self.sessions == old(self).sessions,
                self.catalog == old(self).catalog,
            decreases n - i,
        {
            let ghost route_pre = route;
            let ghost before = route.spec_context().spec_messages();
            match route.add_inference_to_prompt(bundle.rag[i].as_str()) {
                Ok(_) => {},
                Err(e) => {
                    proof {
                        assert(!route_pre.spec_context().can_append());
                        assert(e is Capacity);
                    }
                    self.put_route(route_name, route);
                    return Err(e);
                },
            }
            proof {
                let after = route.spec_context().spec_messages();
                assert(after.subrange(0, before.len() as int) == before);
                assert(after.subrange(0, base as int) =~= base_msgs);
                assert forall|j: int|
                    0 <= j < i + 1 implies (#[trigger] after[base + j]).role
                    == crate::context::Role::Assistant && after[base + j].text@
                    == bundle.rag@[j]@ by {
                    if j < i {
                        assert(after.subrange(0, before.len() as int)[base + j] == after[base + j]);
                        assert(before[base + j] == after[base + j]);
                    } else {
                        assert(after[base + j] == after.last());
                    }
                }
            }
            i = i + 1;
        }
        self.put_route(route_name, route);
        Ok(())
    }
}

} // verus!
