//! Template rendering on the router.

use vstd::prelude::*;

use crate::DeepThoughtError;
use crate::router::DeepThoughtRouter;
use crate::template::{pairs_as_map, rendered};

verus! {

impl DeepThoughtRouter {
    /// Render `raw_template` against the string-keyed `context`; a
    /// rendering failure is a collaborator error.
    pub fn template(raw_template: &str, context: &Vec<(String, String)>) -> (r: Result<
        String,
        DeepThoughtError,
    >)
        ensures
            r matches Ok(s) ==> rendered(raw_template@, pairs_as_map(context@)) == Some(s@),
            r matches Err(e) ==> e is Collaborator && rendered(
                raw_template@,
                pairs_as_map(context@),
            ) is None,
    {
        crate::template::template(raw_template, context)
    }
}

} // verus!
