//! Route registration and lookup on the router.

use vstd::prelude::*;

use crate::DeepThoughtError;
use crate::builder::DeepThoughtBuilder;
use crate::route::DeepThought;
use crate::router::{DeepThoughtCtxModel, DeepThoughtRouter};

verus! {

impl DeepThoughtRouter {
    /// Build the configuration and register the route under `name`,
    /// replacing any existing route silently.  A configuration error
    /// propagates without side effects: no partial registration.
    pub fn new_route(&mut self, name: &str, config: DeepThoughtBuilder) -> (r: Result<
        (),
        DeepThoughtError,
    >)
        requires
            old(self).wf(),
        ensures
            final(self).wf(),
            r is Ok <==> config.spec_valid(),
            r matches Err(e) ==> e is Configuration && *final(self) == *old(self),
            r is Ok ==> (final(self).routes.spec_get(name@) matches Some(rt)
                && config.spec_builds(rt)) && (forall|k: Seq<char>|
                k != name@ ==> final(self).routes.spec_get(k) == old(self).routes.spec_get(k)),
            final(self).sessions == old(self).sessions,
            final(self).ctx_routes == old(self).ctx_routes,
            final(self).facts == old(self).facts,
            final(self).rules == old(self).rules,
            final(self).catalog == old(self).catalog,
    {
        let new_route = match config.build() {
            Ok(new_route) => new_route,
            Err(e) => {
                return Err(e);
            },
        };
        self.routes.insert(name, new_route);
        Ok(())
    }

    /// Register a context-model route under `name`, replacing silently.
    pub fn new_ctx_route(&mut self, name: &str, ctx_route: DeepThoughtCtxModel) -> (r: Result<
        (),
        DeepThoughtError,
    >)
        requires
            old(self).wf(),
        ensures
            r is Ok,
            final(self).wf(),
            final(self).ctx_routes.spec_get(name@) == Some(ctx_route),
            forall|k: Seq<char>|
                k != name@ ==> final(self).ctx_routes.spec_get(k) == old(
                    self,
                ).ctx_routes.spec_get(k),
            final(self).routes == old(self).routes,
            final(self).sessions == old(self).sessions,
            final(self).facts == old(self).facts,
            final(self).rules == old(self).rules,
            final(self).catalog == old(self).catalog,
    {
        self.ctx_routes.insert(name, ctx_route);
        Ok(())
    }

    /// The route registered under `name`, if any.
    pub fn get_route(&self, name: &str) -> (r: Option<&DeepThought>)
        requires
            self.wf(),
        ensures
            match r {
                Some(rt) => self.routes.spec_get(name@) == Some(*rt) && rt.wf(),
                None => self.routes.spec_get(name@) is None,
            },
    {
        self.routes.get(name)
    }

    /// The context-model route registered under `name`, if any.
    pub fn get_ctx_route(&self, name: &str) -> (r: Option<&DeepThoughtCtxModel>)
        requires
            self.wf(),
        ensures
            match r {
                Some(m) => self.ctx_routes.spec_get(name@) == Some(*m),
                None => self.ctx_routes.spec_get(name@) is None,
            },
    {
        self.ctx_routes.get(name)
    }

    /// Remove the route under `name` and hand it out, so that the caller
    /// can drive its store and conversation; `put_route` brings it back.
    pub fn take_route(&mut self, name: &str) -> (r: Option<DeepThought>)
        requires
            old(self).wf(),
        ensures
            final(self).wf(),
            r == old(self).routes.spec_get(name@),
            r matches Some(rt) ==> rt.wf(),
            r is None ==> *final(self) == *old(self),
            final(self).routes.spec_get(name@) is None,
            forall|k: Seq<char>|
                k != name@ ==> final(self).routes.spec_get(k) == old(self).routes.spec_get(k),
            final(self).sessions == old(self).sessions,
            final(self).ctx_routes == old(self).ctx_routes,
            final(self).facts == old(self).facts,
            final(self).rules == old(self).rules,
            final(self).catalog == old(self).catalog,
            final(self).embed_model == old(self).embed_model,
            final(self).prompt_model == old(self).prompt_model,
            final(self).query_preference == old(self).query_preference,
            final(self).embedding_query_prefix == old(self).embedding_query_prefix,
    {
        self.routes.take(name)
    }

    /// Register `route` under `name`, replacing silently; the dual of
    /// `take_route`.
    pub fn put_route(&mut self, name: &str, route: DeepThought)
        requires
            old(self).wf(),
            route.wf(),
        ensures
            final(self).wf(),
            final(self).routes.spec_get(name@) == Some(route),
            forall|k: Seq<char>|
                k != name@ ==> final(self).routes.spec_get(k) == old(self).routes.spec_get(k),
            final(self).sessions == old(self).sessions,
            final(self).ctx_routes == old(self).ctx_routes,
            final(self).facts == old(self).facts,
            final(self).rules == old(self).rules,
            final(self).catalog == old(self).catalog,
            final(self).embed_model == old(self).embed_model,
            final(self).prompt_model == old(self).prompt_model,
            final(self).query_preference == old(self).query_preference,
            final(self).embedding_query_prefix == old(self).embedding_query_prefix,
    {
        self.routes.insert(name, route);
    }

    /// The names of the registered routes.
    pub fn list_routes(&self) -> (r: Vec<String>)
        requires
            self.wf(),
        ensures
            r@.len() == self.routes.spec_len(),
            forall|i: int|
                0 <= i < r@.len() ==> (#[trigger] r@[i])@ == self.routes.spec_entries()[i].0@
                    && self.routes.contains_key(r@[i]@),
            forall|i: int, j: int| 0 <= i < j < r@.len() ==> r@[i]@ != r@[j]@,
    {
        self.routes.keys()
    }

    /// The names of the registered context-model routes.
    pub fn list_ctx_routes(&self) -> (r: Vec<String>)
        requires
            self.wf(),
        ensures
            r@.len() == self.ctx_routes.spec_len(),
            forall|i: int|
                0 <= i < r@.len() ==> (#[trigger] r@[i])@ == self.ctx_routes.spec_entries()[i].0@
                    && self.ctx_routes.contains_key(r@[i]@),
            forall|i: int, j: int| 0 <= i < j < r@.len() ==> r@[i]@ != r@[j]@,
    {
        self.ctx_routes.keys()
    }

    /// Remove the route under `name`; an unknown name is not found.
    pub fn drop_route(&mut self, name: &str) -> (r: Result<(), DeepThoughtError>)
        requires
            old(self).wf(),
        ensures
            final(self).wf(),
            r is Ok <==> old(self).routes.contains_key(name@),
            r matches Err(e) ==> e is NotFound && *final(self) == *old(self),
            final(self).routes.spec_get(name@) is None,
            forall|k: Seq<char>|
                k != name@ ==> final(self).routes.spec_get(k) == old(self).routes.spec_get(k),
            final(self).sessions == old(self).sessions,
            final(self).ctx_routes == old(self).ctx_routes,
    {
        match self.routes.take(name) {
            Some(_) => Ok(()),
            None => Err(DeepThoughtError::NotFound("Route not found".to_owned())),
        }
    }

    /// Remove the context-model route under `name`; an unknown name is not
    /// found.
    pub fn drop_ctx_route(&mut self, name: &str) -> (r: Result<(), DeepThoughtError>)
        requires
            old(self).wf(),
        ensures
            final(self).wf(),
            r is Ok <==> old(self).ctx_routes.contains_key(name@),
            r matches Err(e) ==> e is NotFound && *final(self) == *old(self),
            final(self).ctx_routes.spec_get(name@) is None,
            forall|k: Seq<char>|
                k != name@ ==> final(self).ctx_routes.spec_get(k) == old(
                    self,
                ).ctx_routes.spec_get(k),
            final(self).routes == old(self).routes,
            final(self).sessions == old(self).sessions,
    {
        match self.ctx_routes.take(name) {
            Some(_) => Ok(()),
            None => Err(DeepThoughtError::NotFound("Route not found".to_owned())),
        }
    }
}

} // verus!
