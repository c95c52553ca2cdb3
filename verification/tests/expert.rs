use deepthought::DeepThoughtError;
use deepthought::router::DeepThoughtRouter;
use rust_rule_engine::Value;

#[test]
fn rule_evaluation_scenario() {
    // Define a rule set granting a discount over a large total, set the
    // total fact, evaluate, and observe the discount fact afterwards.
    let mut router = DeepThoughtRouter::new().unwrap();
    router
        .new_rules(
            "R1",
            r#"rule R1 {
                when
                    Cart.total > 100
                then
                    Cart.discount = 10;
            }"#,
        )
        .unwrap();
    router.facts_collection("F1").unwrap();
    router.new_fact("F1", "Cart.total", Value::Integer(150)).unwrap();
    router.expert_system("R1", "F1").unwrap();
    let facts = router.get_facts("F1").unwrap();
    let discount = facts.get("Cart.discount").expect("discount fact set by rule");
    match discount {
        Value::Integer(v) => assert_eq!(v, 10),
        Value::Number(v) => assert_eq!(v, 10.0),
        other => panic!("unexpected discount value: {:?}", other),
    }
}

#[test]
fn rule_not_fired_below_threshold() {
    let mut router = DeepThoughtRouter::new().unwrap();
    router
        .new_rules(
            "R1",
            r#"rule R1 {
                when
                    Cart.total > 100
                then
                    Cart.discount = 10;
            }"#,
        )
        .unwrap();
    router.facts_collection("F1").unwrap();
    router.new_fact("F1", "Cart.total", Value::Integer(50)).unwrap();
    router.expert_system("R1", "F1").unwrap();
    let facts = router.get_facts("F1").unwrap();
    assert!(facts.get("Cart.discount").is_none());
}

#[test]
fn unparseable_rules_are_rejected_and_register_nothing() {
    let mut router = DeepThoughtRouter::new().unwrap();
    let r = router.new_rules("bad", "rule Broken { when Cart.total > then ; }");
    assert!(matches!(r, Err(DeepThoughtError::Collaborator(_))));
    assert!(matches!(router.get_rules("bad"), Err(DeepThoughtError::NotFound(_))));
}

#[test]
fn rule_reregistration_replaces() {
    let mut router = DeepThoughtRouter::new().unwrap();
    let one_rule = r#"rule A { when Cart.total > 1 then Cart.x = 1; }"#;
    let two_rules = r#"
        rule A { when Cart.total > 1 then Cart.x = 1; }
        rule B { when Cart.total > 2 then Cart.y = 2; }
    "#;
    router.new_rules("R", one_rule).unwrap();
    assert_eq!(router.get_rules("R").unwrap().len(), 1);
    router.new_rules("R", two_rules).unwrap();
    assert_eq!(router.get_rules("R").unwrap().len(), 2);
}

#[test]
fn evaluation_of_unknown_names_not_found() {
    let mut router = DeepThoughtRouter::new().unwrap();
    assert!(matches!(
        router.expert_system("nope", "F1"),
        Err(DeepThoughtError::NotFound(_))
    ));
    router.new_rules("R1", r#"rule A { when Cart.total > 1 then Cart.x = 1; }"#).unwrap();
    assert!(matches!(
        router.expert_system("R1", "nope"),
        Err(DeepThoughtError::NotFound(_))
    ));
}

#[test]
fn facts_collection_created_on_first_access() {
    let mut router = DeepThoughtRouter::new().unwrap();
    assert!(matches!(router.get_facts("F"), Err(DeepThoughtError::NotFound(_))));
    assert!(matches!(
        router.new_fact("F", "k", Value::Integer(1)),
        Err(DeepThoughtError::NotFound(_))
    ));
    router.facts_collection("F").unwrap();
    let facts = router.get_facts("F").unwrap();
    assert!(facts.get("k").is_none());
    router.new_fact("F", "k", Value::Integer(1)).unwrap();
    let facts = router.get_facts("F").unwrap();
    assert_eq!(facts.get("k"), Some(Value::Integer(1)));
    // A second access keeps the existing collection.
    router.facts_collection("F").unwrap();
    let facts = router.get_facts("F").unwrap();
    assert_eq!(facts.get("k"), Some(Value::Integer(1)));
}

#[test]
fn non_ascii_rule_source_is_rejected() {
    // The rule engine's parser indexes rule text by bytes, so the adapter
    // admits only ASCII sources; anything else is rejected up front and
    // registers nothing.
    let mut router = DeepThoughtRouter::new().unwrap();
    let r = router.new_rules("bad", "rule R { when Cart.total > 100 then Cart.x = é; }");
    assert!(matches!(r, Err(DeepThoughtError::Collaborator(_))));
    assert!(matches!(router.get_rules("bad"), Err(DeepThoughtError::NotFound(_))));
}
