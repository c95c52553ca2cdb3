//! The prompt-refinement pipeline.
//!
//! A raw prompt is substituted into a fixed meta-instruction, which an
//! inference collaborator answers with structured text; that text is parsed
//! and validated strictly against the refinement schema.  A parse failure or
//! a missing required field is a hard error, never best-effort recovery.

use vstd::prelude::*;

use crate::DeepThoughtError;
use crate::jsonval::{
    json_member_str, json_member_str_entries, json_member_str_list, json_member_text_entries,
    json_parse, json_parses, json_str_entries_field, json_str_field, json_str_list_field,
    json_text_entries_field,
};
use crate::namemap::{pairs_lookup, seq_get};
use crate::prompt::DeepThoughtRecommededPrompt;
use crate::template::{rendered, template};

verus! {

/// The system role the refiner's isolated conversation is seeded with.
pub const REFINER_SYSTEM_PROMPT: &'static str = "You are \"Prompt Refiner\". Your job is to transform rough prompts into precise, testable instructions for other models.";

/// The meta-instruction rendered around the raw prompt before it is sent to
/// the inference collaborator.
pub const DEFAULT_REFINE_PROMPT: &'static str = r#"
You are "Prompt Refiner". Your job is to transform rough prompts into precise, testable instructions for other models

Operating rules:
- Preserve the user's intent and domain terms.
- Remove ambiguity; add only minimal missing constraints.
- Do not reveal chain-of-thought or internal reasoning.
- If essential info is missing (objective, inputs, audience, format, constraints, or success criteria), do not ask questions.
- Output valid JSON that matches the schema EXACTLY. No extra text outside JSON. Keep total tokens <= 1200.

Output schema (must match precisely):
{
  "raw_prompt": "string",
  "clarifying_questions": [string],
  "prompts": {
    "deterministic": "string",
    "balanced": "string",
    "creative": "string"
  },
  "rationale_bullets": [string],
  "suggested_parameters": {
    "temperature": number,
    "top_p": number,
    "max_tokens": number,
    "stop": [string],
    "seed": number
  },
  "quick_tests": [string, string, string]
}

Quality self-check (silent): Clarity, Context, Constraints, Format, Evaluation, Safety. In the field "raw_prompt" store original prompt.
If any check fails, fix and still return schema-valid JSON only.


Task: Improve the following prompt and return JSON ONLY per the system schema.

Rough prompt:
<<<
{{ prompt }}
>>>

"#;

/// The context the meta-instruction is rendered against: the raw prompt
/// under the key `prompt`.
pub open spec fn refine_context(prompt: Seq<char>) -> Map<Seq<char>, Seq<char>> {
    Map::empty().insert("prompt"@, prompt)
}

/// Build the meta-instruction for one raw prompt by rendering the fixed
/// refinement template around it.
pub fn refine_request(prompt: &str) -> (r: Result<String, DeepThoughtError>)
    ensures
        r matches Ok(s) ==> rendered(DEFAULT_REFINE_PROMPT@, refine_context(prompt@)) == Some(s@),
        r matches Err(e) ==> e is Collaborator && rendered(
            DEFAULT_REFINE_PROMPT@,
            refine_context(prompt@),
        ) is None,
{
    let mut ctx: Vec<(String, String)> = Vec::new();
    let ghost c0 = ctx@;
    ctx.push(("prompt".to_owned(), prompt.to_owned()));
    proof {
        reveal_strlit("prompt");
        assert(c0.len() == 0);
        assert(ctx@.drop_last() =~= c0);
        assert(crate::template::pairs_as_map(c0) =~= Map::<Seq<char>, Seq<char>>::empty());
        assert(crate::template::pairs_as_map(ctx@) =~= refine_context(prompt@));
    }
    template(DEFAULT_REFINE_PROMPT, &ctx)
}

/// The plain fields extracted from one refinement response, before
/// validation.
pub struct RefinementFields {
    pub raw_prompt: String,
    pub clarifying_questions: Vec<String>,
    pub prompts: Vec<(String, String)>,
    pub rationale_bullets: Vec<String>,
    pub suggested_parameters: Vec<(String, String)>,
    pub quick_tests: Vec<String>,
}

/// The refinement schema over extracted fields: the three named variants
/// are present, at most three clarifying questions, three to six rationale
/// bullets, and exactly three quick tests.
pub open spec fn spec_refinement_ok(f: RefinementFields) -> bool {
    &&& seq_get(f.prompts@, "deterministic"@) is Some
    &&& seq_get(f.prompts@, "balanced"@) is Some
    &&& seq_get(f.prompts@, "creative"@) is Some
    &&& f.clarifying_questions@.len() <= 3
    &&& 3 <= f.rationale_bullets@.len() <= 6
    &&& f.quick_tests@.len() == 3
}

/// Validate extracted refinement fields strictly against the schema: valid
/// fields become a recommended prompt with exactly those fields, anything
/// else is a schema error.
pub fn validate_refinement(f: RefinementFields) -> (r: Result<
    DeepThoughtRecommededPrompt,
    DeepThoughtError,
>)
    ensures
        r is Ok <==> spec_refinement_ok(f),
        r matches Ok(rp) ==> {
            &&& rp.raw_prompt == f.raw_prompt
            &&& rp.clarifying_questions@ == f.clarifying_questions@
            &&& rp.prompts@ == f.prompts@
            &&& rp.rationale_bullets@ == f.rationale_bullets@
            &&& rp.suggested_parameters@ == f.suggested_parameters@
            &&& rp.quick_tests@ == f.quick_tests@
            &&& rp.schema_ok()
        },
        r matches Err(e) ==> e is Schema,
{
    let has_all = pairs_lookup(&f.prompts, "deterministic").is_some() && pairs_lookup(
        &f.prompts,
        "balanced",
    ).is_some() && pairs_lookup(&f.prompts, "creative").is_some();
    let counts_ok = f.clarifying_questions.len() <= 3 && 3 <= f.rationale_bullets.len()
        && f.rationale_bullets.len() <= 6 && f.quick_tests.len() == 3;
    if !(has_all && counts_ok) {
        return Err(
            DeepThoughtError::Schema("Refinement response violates the schema".to_owned()),
        );
    }
    let rp = DeepThoughtRecommededPrompt {
        raw_prompt: f.raw_prompt,
        clarifying_questions: f.clarifying_questions,
        prompts: f.prompts,
        rationale_bullets: f.rationale_bullets,
        suggested_parameters: f.suggested_parameters,
        quick_tests: f.quick_tests,
    };
    proof {
        assert forall|i: int|
            0 <= i < crate::prompt::required_variants().len() implies seq_get(
            rp.prompts@,
            crate::prompt::required_variants()[i],
        ) is Some by {
            if i == 0 {
                assert(crate::prompt::required_variants()[0] == "deterministic"@);
            } else if i == 1 {
                assert(crate::prompt::required_variants()[1] == "balanced"@);
            } else {
                assert(crate::prompt::required_variants()[2] == "creative"@);
            }
        }
    }
    Ok(rp)
}

/// Whether a parsed refinement response carries every required member in
/// its required shape: a string `raw_prompt`, string arrays
/// `clarifying_questions`, `rationale_bullets` and `quick_tests`, a
/// string-valued object `prompts`, and an object `suggested_parameters`.
pub open spec fn refinement_members_ok(v: serde_json::Value) -> bool {
    &&& json_member_str(v, "raw_prompt"@) is Some
    &&& json_member_str_list(v, "clarifying_questions"@) is Some
    &&& json_member_str_entries(v, "prompts"@) is Some
    &&& json_member_str_list(v, "rationale_bullets"@) is Some
    &&& json_member_text_entries(v, "suggested_parameters"@) is Some
    &&& json_member_str_list(v, "quick_tests"@) is Some
}

/// Extract the refinement fields from one parsed response: succeeds exactly
/// when every required member is present in its required shape, handing back
/// exactly the members' contents; anything else is a schema error.
pub fn refine_fields(v: &serde_json::Value) -> (r: Result<RefinementFields, DeepThoughtError>)
    ensures
        r is Ok <==> refinement_members_ok(*v),
        r matches Ok(f) ==> {
            &&& json_member_str(*v, "raw_prompt"@) == Some(f.raw_prompt@)
            &&& json_member_str_list(*v, "clarifying_questions"@) == Some(
                f.clarifying_questions@.map_values(|x: String| x@),
            )
            &&& json_member_str_entries(*v, "prompts"@) == Some(
                f.prompts@.map_values(|e: (String, String)| (e.0@, e.1@)),
            )
            &&& json_member_str_list(*v, "rationale_bullets"@) == Some(
                f.rationale_bullets@.map_values(|x: String| x@),
            )
            &&& json_member_text_entries(*v, "suggested_parameters"@) == Some(
                f.suggested_parameters@.map_values(|e: (String, String)| (e.0@, e.1@)),
            )
            &&& json_member_str_list(*v, "quick_tests"@) == Some(
                f.quick_tests@.map_values(|x: String| x@),
            )
        },
        r matches Err(e) ==> e is Schema,
{
    let raw_prompt = match json_str_field(v, "raw_prompt") {
        Some(s) => s,
        None => {
            return Err(DeepThoughtError::Schema("raw_prompt must be a string".to_owned()));
        },
    };
    let clarifying_questions = match json_str_list_field(v, "clarifying_questions") {
        Some(a) => a,
        None => {
            return Err(
                DeepThoughtError::Schema(
                    "clarifying_questions must be an array of strings".to_owned(),
                ),
            );
        },
    };
    let prompts = match json_str_entries_field(v, "prompts") {
        Some(p) => p,
        None => {
            return Err(
                DeepThoughtError::Schema("prompts must be an object of strings".to_owned()),
            );
        },
    };
    let rationale_bullets = match json_str_list_field(v, "rationale_bullets") {
        Some(a) => a,
        None => {
            return Err(
                DeepThoughtError::Schema(
                    "rationale_bullets must be an array of strings".to_owned(),
                ),
            );
        },
    };
    let suggested_parameters = match json_text_entries_field(v, "suggested_parameters") {
        Some(p) => p,
        None => {
            return Err(
                DeepThoughtError::Schema("suggested_parameters must be an object".to_owned()),
            );
        },
    };
    let quick_tests = match json_str_list_field(v, "quick_tests") {
        Some(a) => a,
        None => {
            return Err(
                DeepThoughtError::Schema("quick_tests must be an array of strings".to_owned()),
            );
        },
    };
    Ok(
        RefinementFields {
            raw_prompt,
            clarifying_questions,
            prompts,
            rationale_bullets,
            suggested_parameters,
            quick_tests,
        },
    )
}

/// Parse one refinement response strictly: the text must parse as a
/// structured value carrying every required field in its required shape,
/// and the counts of the schema must hold; anything else is a schema error.
/// The member extraction is pinned per parsed value by `refine_fields`, and
/// the count validation by `validate_refinement`.
pub fn refine_response(text: &str) -> (r: Result<DeepThoughtRecommededPrompt, DeepThoughtError>)
    ensures
        r matches Ok(rp) ==> rp.schema_ok(),
        r matches Err(e) ==> e is Schema,
        r is Ok ==> json_parses(text@),
        !json_parses(text@) ==> r is Err,
{
    let v = match json_parse(text) {
        Some(v) => v,
        None => {
            return Err(
                DeepThoughtError::Schema("Refinement response is not valid JSON".to_owned()),
            );
        },
    };
    let fields = match refine_fields(&v) {
        Ok(fields) => fields,
        Err(e) => {
            return Err(e);
        },
    };
    validate_refinement(fields)
}

} // verus!
