//! Preference handling and variant selection on the router.

use vstd::prelude::*;

use crate::prompt::DeepThoughtRecommededPrompt;
use crate::router::DeepThoughtRouter;

verus! {

impl DeepThoughtRouter {
    /// The preference name used to select among refinement variants.
    pub fn query_preference(&self) -> (r: &str)
        ensures
            r@ == self.query_preference@,
    {
        self.query_preference.as_str()
    }

    /// Set the preference name used to select among refinement variants.
    pub fn set_query_preference(&mut self, preference: String)
        requires
            old(self).wf(),
        ensures
            final(self).wf(),
            final(self).query_preference == preference,
            final(self).routes == old(self).routes,
            final(self).ctx_routes == old(self).ctx_routes,
            final(self).sessions == old(self).sessions,
            final(self).facts == old(self).facts,
            final(self).rules == old(self).rules,
            final(self).catalog == old(self).catalog,
            final(self).embed_model == old(self).embed_model,
            final(self).prompt_model == old(self).prompt_model,
            final(self).embedding_query_prefix == old(self).embedding_query_prefix,
    {
        self.query_preference = preference;
    }

    /// Select the refinement variant named by the router's preference; an
    /// unknown preference falls back to the raw prompt.
    pub fn select_recommended(&self, rp: &DeepThoughtRecommededPrompt) -> (r: String)
        ensures
            r@ == rp.spec_selected(self.query_preference@),
    {
        rp.recommended_prompt(self.query_preference.as_str()).to_owned()
    }
}

} // verus!
