//! The product of one prompt-refinement call.
//!
//! A refinement response carries the original prompt, up to three clarifying
//! questions, a set of named rewrite variants (at least "deterministic",
//! "balanced" and "creative"), three to six rationale bullets, suggested
//! sampling parameters, and exactly three quick tests.  Selection by
//! preference name falls back to the original prompt when the preference
//! names no variant: never to another variant.

use vstd::prelude::*;

use crate::namemap::seq_get;

verus! {

/// A refined prompt: the rewrite variants and their supporting material.
pub struct DeepThoughtRecommededPrompt {
    /// The original prompt, unchanged.
    pub raw_prompt: String,
    /// At most three questions the refiner would ask about missing detail.
    pub clarifying_questions: Vec<String>,
    /// The rewrite variants, keyed by variant name.
    pub prompts: Vec<(String, String)>,
    /// Three to six short bullets explaining the rewrites.
    pub rationale_bullets: Vec<String>,
    /// Suggested sampling parameters, keyed by parameter name; each value is
    /// carried as its raw structured text.
    pub suggested_parameters: Vec<(String, String)>,
    /// Exactly three short inputs to validate the prompt with.
    pub quick_tests: Vec<String>,
}

/// The variant names every refinement response must carry.
pub open spec fn required_variants() -> Seq<Seq<char>> {
    seq!["deterministic"@, "balanced"@, "creative"@]
}

impl DeepThoughtRecommededPrompt {
    /// The structural constraints of a valid refinement response: the three
    /// named variants are present, at most three clarifying questions, three
    /// to six rationale bullets, and exactly three quick tests.
    pub open spec fn schema_ok(&self) -> bool {
        &&& forall|i: int|
            0 <= i < required_variants().len() ==> seq_get(
                self.prompts@,
                required_variants()[i],
            ) is Some
        &&& self.clarifying_questions@.len() <= 3
        &&& 3 <= self.rationale_bullets@.len() <= 6
        &&& self.quick_tests@.len() == 3
    }

    /// The text that selecting `preference` yields: the variant of that
    /// name, or the raw prompt when no variant has the name.
    pub open spec fn spec_selected(&self, preference: Seq<char>) -> Seq<char> {
        match seq_get(self.prompts@, preference) {
            Some(t) => t@,
            None => self.raw_prompt@,
        }
    }

    /// Select the rewrite variant named `query`; an unknown name falls back
    /// to the raw prompt, never to another variant.
    pub fn recommended_prompt(&self, query: &str) -> (r: &str)
        ensures
            r@ == self.spec_selected(query@),
            seq_get(self.prompts@, query@) matches Some(t) ==> r@ == t@,
            seq_get(self.prompts@, query@) is None ==> r@ == self.raw_prompt@,
    {
        let key = query.to_owned();
        let n = self.prompts.len();
        let mut i: usize = 0;
        let mut found: Option<usize> = None;
        while i < n
            invariant
                n == self.prompts@.len(),
                i <= n,
                key@ == query@,
                match found {
                    Some(j) => j < i && self.prompts@[j as int].0@ == query@ && seq_get(
                        self.prompts@.subrange(0, i as int),
                        query@,
                    ) == Some(self.prompts@[j as int].1),
                    None => seq_get(self.prompts@.subrange(0, i as int), query@) is None,
                },
            decreases n - i,
        {
            proof {
                assert(self.prompts@.subrange(0, i + 1 as int).drop_last() =~= self.prompts@
                    .subrange(0, i as int));
            }
            if self.prompts[i].0 == key {
                found = Some(i);
            }
            i = i + 1;
        }
        proof {
            assert(self.prompts@.subrange(0, n as int) =~= self.prompts@);
        }
        match found {
            Some(j) => self.prompts[j].1.as_str(),
            None => self.raw_prompt.as_str(),
        }
    }
}

/// Selection fallback: when a response binds the preference name, selecting
/// it yields exactly that variant's text; when it does not, selection yields
/// the raw prompt — not any other variant.
pub proof fn lemma_selection_fallback(
    rp: DeepThoughtRecommededPrompt,
    known: Seq<char>,
    unknown: Seq<char>,
)
    requires
        seq_get(rp.prompts@, known) is Some,
        seq_get(rp.prompts@, unknown) is None,
    ensures
        rp.spec_selected(known) == seq_get(rp.prompts@, known)->Some_0@,
        rp.spec_selected(unknown) == rp.raw_prompt@,
{
}

} // verus!
