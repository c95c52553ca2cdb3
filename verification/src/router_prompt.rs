//! Prompt refinement on the router.
//!
//! The router builds the meta-instruction for a raw prompt (the refinement
//! model must be configured), the caller dispatches it to the inference
//! collaborator against an isolated conversation seeded with the refiner
//! system role, and the router validates the collaborator's structured
//! response strictly.

use vstd::prelude::*;

use crate::DeepThoughtError;
use crate::context::DeepThoughtContext;
use crate::jsonval::json_parses;
use crate::prompt::DeepThoughtRecommededPrompt;
use crate::refine::{DEFAULT_REFINE_PROMPT, REFINER_SYSTEM_PROMPT, refine_context};
use crate::router::DeepThoughtRouter;
use crate::template::rendered;

verus! {

impl DeepThoughtRouter {
    /// Build the meta-instruction for one raw prompt; refining is
    /// impossible while no refinement model is configured.
    pub fn refine_request(&self, prompt: &str) -> (r: Result<String, DeepThoughtError>)
        ensures
            self.prompt_model is None ==> (r matches Err(e) && e is Configuration),
            self.prompt_model is Some ==> {
                &&& r matches Ok(s) ==> rendered(DEFAULT_REFINE_PROMPT@, refine_context(prompt@))
                    == Some(s@)
                &&& r matches Err(e) ==> e is Collaborator && rendered(
                    DEFAULT_REFINE_PROMPT@,
                    refine_context(prompt@),
                ) is None
            },
    {
        if self.prompt_model.is_none() {
            return Err(
                DeepThoughtError::Configuration(
                    "Prompt model not configured. Prompt refining is impossible".to_owned(),
                ),
            );
        }
        crate::refine::refine_request(prompt)
    }

    /// The isolated conversation a refinement request runs against: seeded
    /// only with the refiner system role.
    pub fn refine_context_seed(&self) -> (r: Result<DeepThoughtContext, DeepThoughtError>)
        ensures
            r is Ok,
            r matches Ok(c) ==> c.spec_messages().len() == 1 && c.spec_messages()[0].role
                == crate::context::Role::System && c.spec_messages()[0].text@
                == REFINER_SYSTEM_PROMPT@ && c.spec_max() is None,
    {
        DeepThoughtContext::init(REFINER_SYSTEM_PROMPT)
    }

    /// Validate one refinement response strictly against the schema.
    pub fn refine_response(&self, text: &str) -> (r: Result<
        DeepThoughtRecommededPrompt,
        DeepThoughtError,
    >)
        ensures
            r matches Ok(rp) ==> rp.schema_ok(),
            r matches Err(e) ==> e is Schema,
            !json_parses(text@) ==> r is Err,
    {
        crate::refine::refine_response(text)
    }
}

} // verus!
