use deepthought::DeepThoughtError;
use deepthought::prompt::DeepThoughtRecommededPrompt;
use deepthought::refine::{RefinementFields, refine_response, validate_refinement};
use deepthought::router::DeepThoughtRouter;
use deepthought::router_builder::DeepThoughtRouterBuilder;

fn valid_response() -> String {
    r#"{
        "raw_prompt": "write a poem",
        "clarifying_questions": ["about what?"],
        "prompts": {
            "deterministic": "Write a four-line poem about the sea.",
            "balanced": "Write a short poem about the sea.",
            "creative": "Write an experimental poem evoking the sea."
        },
        "rationale_bullets": ["scoped", "concrete", "testable"],
        "suggested_parameters": {"temperature": 0.7, "top_p": 0.9},
        "quick_tests": ["sea", "poem", "four lines"]
    }"#
    .to_string()
}

#[test]
fn refine_response_accepts_valid_schema() {
    let rp = refine_response(&valid_response()).unwrap();
    assert_eq!(rp.raw_prompt, "write a poem");
    assert_eq!(rp.clarifying_questions, vec!["about what?".to_string()]);
    assert_eq!(rp.rationale_bullets.len(), 3);
    assert_eq!(rp.quick_tests.len(), 3);
    assert_eq!(
        rp.recommended_prompt("deterministic"),
        "Write a four-line poem about the sea."
    );
    // The suggested parameters arrive as raw structured text per key.
    assert!(rp.suggested_parameters.iter().any(|(k, v)| k == "temperature" && v == "0.7"));
}

#[test]
fn refine_response_rejects_invalid_json() {
    let r = refine_response("not json at all");
    assert!(matches!(r, Err(DeepThoughtError::Schema(_))));
}

#[test]
fn refine_response_rejects_missing_variant() {
    let text = valid_response().replace("\"creative\"", "\"inventive\"");
    assert!(matches!(refine_response(&text), Err(DeepThoughtError::Schema(_))));
}

#[test]
fn refine_response_rejects_missing_field() {
    let text = valid_response().replace("\"raw_prompt\"", "\"original\"");
    assert!(matches!(refine_response(&text), Err(DeepThoughtError::Schema(_))));
}

#[test]
fn refine_response_rejects_bad_counts() {
    // Too few rationale bullets.
    let text = valid_response().replace(
        "[\"scoped\", \"concrete\", \"testable\"]",
        "[\"scoped\", \"concrete\"]",
    );
    assert!(matches!(refine_response(&text), Err(DeepThoughtError::Schema(_))));
    // Wrong number of quick tests.
    let text = valid_response().replace(
        "[\"sea\", \"poem\", \"four lines\"]",
        "[\"sea\", \"poem\"]",
    );
    assert!(matches!(refine_response(&text), Err(DeepThoughtError::Schema(_))));
    // Too many clarifying questions.
    let text = valid_response().replace(
        "[\"about what?\"]",
        "[\"a\", \"b\", \"c\", \"d\"]",
    );
    assert!(matches!(refine_response(&text), Err(DeepThoughtError::Schema(_))));
}

#[test]
fn validate_refinement_exact_boundaries() {
    let fields = |bullets: usize, tests: usize| RefinementFields {
        raw_prompt: "r".to_string(),
        clarifying_questions: vec![],
        prompts: vec![
            ("deterministic".to_string(), "d".to_string()),
            ("balanced".to_string(), "b".to_string()),
            ("creative".to_string(), "c".to_string()),
        ],
        rationale_bullets: (0..bullets).map(|i| i.to_string()).collect(),
        suggested_parameters: vec![],
        quick_tests: (0..tests).map(|i| i.to_string()).collect(),
    };
    assert!(validate_refinement(fields(3, 3)).is_ok());
    assert!(validate_refinement(fields(6, 3)).is_ok());
    assert!(validate_refinement(fields(2, 3)).is_err());
    assert!(validate_refinement(fields(7, 3)).is_err());
    assert!(validate_refinement(fields(3, 2)).is_err());
    assert!(validate_refinement(fields(3, 4)).is_err());
}

#[test]
fn selection_fallback_exact() {
    // prompts {deterministic: A, balanced: B, creative: C}, raw_prompt R:
    // selecting "creative" yields C; an unknown name yields R, not B.
    let rp = DeepThoughtRecommededPrompt {
        raw_prompt: "R".to_string(),
        clarifying_questions: vec![],
        prompts: vec![
            ("deterministic".to_string(), "A".to_string()),
            ("balanced".to_string(), "B".to_string()),
            ("creative".to_string(), "C".to_string()),
        ],
        rationale_bullets: vec!["x".to_string(), "y".to_string(), "z".to_string()],
        suggested_parameters: vec![],
        quick_tests: vec!["1".to_string(), "2".to_string(), "3".to_string()],
    };
    assert_eq!(rp.recommended_prompt("creative"), "C");
    assert_eq!(rp.recommended_prompt("unknown"), "R");
    assert_eq!(rp.recommended_prompt("deterministic"), "A");
    assert_eq!(rp.recommended_prompt("balanced"), "B");
}

#[test]
fn router_selects_by_preference_with_fallback() {
    let rp = DeepThoughtRecommededPrompt {
        raw_prompt: "R".to_string(),
        clarifying_questions: vec![],
        prompts: vec![("balanced".to_string(), "B".to_string())],
        rationale_bullets: vec!["x".to_string(), "y".to_string(), "z".to_string()],
        suggested_parameters: vec![],
        quick_tests: vec!["1".to_string(), "2".to_string(), "3".to_string()],
    };
    let mut router = DeepThoughtRouter::new().unwrap();
    assert_eq!(router.query_preference(), "balanced");
    assert_eq!(router.select_recommended(&rp), "B");
    router.set_query_preference("creative".to_string());
    // No "creative" variant: the raw prompt comes back, not "balanced".
    assert_eq!(router.select_recommended(&rp), "R");
}

#[test]
fn template_renders_context() {
    let ctx = vec![("prompt".to_string(), "there".to_string())];
    let rendered = DeepThoughtRouter::template("Hi {{ prompt }}!", &ctx).unwrap();
    assert_eq!(rendered, "Hi there!");
}

#[test]
fn template_failure_is_collaborator_error() {
    let ctx: Vec<(String, String)> = vec![];
    let r = DeepThoughtRouter::template("{% if %}", &ctx);
    assert!(matches!(r, Err(DeepThoughtError::Collaborator(_))));
}

#[test]
fn refine_request_requires_prompt_model() {
    let router = DeepThoughtRouter::new().unwrap();
    assert!(matches!(
        router.refine_request("hello"),
        Err(DeepThoughtError::Configuration(_))
    ));

    let router = DeepThoughtRouterBuilder::default()
        .prompt_model("prompt.gguf")
        .default_embed_model("embed.gguf")
        .build()
        .unwrap();
    let request = router.refine_request("summarize the report").unwrap();
    assert!(request.contains("summarize the report"));
    assert!(request.contains("Output schema"));
}

#[test]
fn router_builder_requires_both_models() {
    let r = DeepThoughtRouterBuilder::default().build();
    assert!(matches!(r, Err(DeepThoughtError::Configuration(_))));
    let r = DeepThoughtRouterBuilder::default().prompt_model("p.gguf").build();
    assert!(matches!(r, Err(DeepThoughtError::Configuration(_))));
    let router = DeepThoughtRouterBuilder::default()
        .prompt_model("p.gguf")
        .default_embed_model("e.gguf")
        .deterministic_preference()
        .build()
        .unwrap();
    assert_eq!(router.query_preference(), "deterministic");
}

#[test]
fn unresolved_template_variable_is_hard_error() {
    // Rendering runs under strict undefined behavior: a variable the context
    // does not bind fails the render instead of becoming empty text.
    let ctx = vec![("prompt".to_string(), "there".to_string())];
    let r = DeepThoughtRouter::template("Hi {{ missing }}!", &ctx);
    assert!(matches!(r, Err(DeepThoughtError::Collaborator(_))));
}
