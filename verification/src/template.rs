//! Template rendering through the template-engine collaborator.
//!
//! The core hands the engine a template text and a string-keyed context and
//! takes back the rendered text.  Rendering is a function of the template
//! and the context alone; what that function computes belongs to the engine,
//! so the core names its result rather than restating it.

use vstd::prelude::*;

use crate::DeepThoughtError;

verus! {

/// What the template engine renders for a template text and a context, or
/// `None` when rendering fails (unknown syntax, unresolved variable).
pub uninterp spec fn rendered(template: Seq<char>, ctx: Map<Seq<char>, Seq<char>>) -> Option<
    Seq<char>,
>;

/// The context map that a list of key/value pairs denotes, the latest
/// binding of a key winning.
pub open spec fn pairs_as_map(pairs: Seq<(String, String)>) -> Map<Seq<char>, Seq<char>>
    decreases pairs.len(),
{
    if pairs.len() == 0 {
        Map::empty()
    } else {
        pairs_as_map(pairs.drop_last()).insert(pairs.last().0@, pairs.last().1@)
    }
}

/// Relies on minijinja's `Environment::render_str` under strict undefined
/// behavior, so that an unresolved variable is a hard rendering error:
/// rendering a template against a string-keyed context map is deterministic
/// in the template text and the context values.
#[verifier::external_body]
fn render_str(template: &str, pairs: &Vec<(String, String)>) -> (r: Result<String, String>)
    ensures
        r matches Ok(s) ==> rendered(template@, pairs_as_map(pairs@)) == Some(s@),
        r is Err ==> rendered(template@, pairs_as_map(pairs@)) is None,
{
    let ctx: std::collections::HashMap<String, String> = pairs.iter().cloned().collect();
    let mut env = minijinja::Environment::new();
    env.set_undefined_behavior(minijinja::UndefinedBehavior::Strict);
    match env.render_str(template, ctx) {
        Ok(s) => Ok(s),
        Err(e) => Err(e.to_string()),
    }
}

/// Render `raw_template` against the string-keyed `context`; a rendering
/// failure is a collaborator error.
pub fn template(raw_template: &str, context: &Vec<(String, String)>) -> (r: Result<
    String,
    DeepThoughtError,
>)
    ensures
        r matches Ok(s) ==> rendered(raw_template@, pairs_as_map(context@)) == Some(s@),
        r matches Err(e) ==> e is Collaborator && rendered(
            raw_template@,
            pairs_as_map(context@),
        ) is None,
{
    match render_str(raw_template, context) {
        Ok(s) => Ok(s),
        Err(e) => Err(DeepThoughtError::Collaborator(e)),
    }
}

} // verus!
