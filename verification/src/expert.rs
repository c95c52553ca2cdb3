//! The rule-evaluation collaborator, behind narrow trusted interfaces.
//!
//! Rule parsing, the knowledge base, and rule execution belong to the rule
//! engine; the core only manages named rule sets and named fact collections
//! and drives one execution at a time.  Execution mutates the fact
//! collection in place; the core neither interprets nor exposes which rules
//! fired.
//!
//! The engine's parser and expression evaluator index rule text by bytes at
//! positions found by character, so rule text holding a character outside
//! ASCII can make them abort.  The core therefore admits only ASCII rule
//! sources, and tracks through `rule_ascii` and its companions that every
//! rule a knowledge base or engine holds came from such a source.  Fact
//! values need no such bound: execution compares and converts them, it
//! never indexes into them.

use vstd::prelude::*;

verus! {

#[verifier::external_type_specification]
#[verifier::external_body]
pub struct ExFacts(rust_rule_engine::Facts);

#[verifier::external_type_specification]
#[verifier::external_body]
pub struct ExRule(rust_rule_engine::Rule);

#[verifier::external_type_specification]
#[verifier::external_body]
pub struct ExKnowledgeBase(rust_rule_engine::KnowledgeBase);

#[verifier::external_type_specification]
#[verifier::external_body]
pub struct ExRustRuleEngine(rust_rule_engine::RustRuleEngine);

#[verifier::external_type_specification]
#[verifier::external_body]
pub struct ExRreValue(rust_rule_engine::Value);

/// The keys a fact collection binds.
pub uninterp spec fn fact_keys(f: rust_rule_engine::Facts) -> Set<Seq<char>>;

/// Whether the rule engine parses the text as rule definitions.
pub uninterp spec fn grl_parses(s: Seq<char>) -> bool;

/// Whether a rule's conditions and actions carry only ASCII text, as every
/// rule parsed from an ASCII source does.
pub uninterp spec fn rule_ascii(r: rust_rule_engine::Rule) -> bool;

/// Whether every rule a knowledge base holds carries only ASCII text.
pub uninterp spec fn kb_rules_ascii(kb: rust_rule_engine::KnowledgeBase) -> bool;

/// Whether every rule an engine's knowledge base holds carries only ASCII
/// text.
pub uninterp spec fn engine_rules_ascii(e: rust_rule_engine::RustRuleEngine) -> bool;

/// Whether every rule of the list carries only ASCII text.
pub open spec fn rules_all_ascii(s: Seq<rust_rule_engine::Rule>) -> bool {
    forall|i: int| 0 <= i < s.len() ==> rule_ascii(#[trigger] s[i])
}

/// Relies on Facts::new: a fresh collection binds no key.
#[verifier::external_body]
pub fn facts_new() -> (r: rust_rule_engine::Facts)
    ensures
        fact_keys(r) == Set::<Seq<char>>::empty(),
{
    rust_rule_engine::Facts::new()
}

/// Relies on Facts::set: binds exactly the given key, overwriting any
/// previous binding.
#[verifier::external_body]
pub fn facts_set(f: &mut rust_rule_engine::Facts, key: &str, value: rust_rule_engine::Value)
    ensures
        fact_keys(*final(f)) == fact_keys(*old(f)).insert(key@),
{
    f.set(key, value);
}

/// Relies on GRLParser::parse_rules: whether a text parses is a function of
/// the text alone.  The parser byte-indexes the source at positions found by
/// character, so only ASCII sources are admitted; every rule it returns then
/// carries only ASCII text.
#[verifier::external_body]
pub fn parse_rules(source: &str) -> (r: Result<Vec<rust_rule_engine::Rule>, String>)
    requires
        source.is_ascii(),
    ensures
        r is Ok <==> grl_parses(source@),
        r matches Ok(rules) ==> rules_all_ascii(rules@),
{
    match rust_rule_engine::GRLParser::parse_rules(source) {
        Ok(rules) => Ok(rules),
        Err(e) => Err(e.to_string()),
    }
}

/// Relies on Rule::clone: the copy carries the same text as the original.
#[verifier::external_body]
pub fn clone_rule(r: &rust_rule_engine::Rule) -> (c: rust_rule_engine::Rule)
    ensures
        rule_ascii(*r) ==> rule_ascii(c),
{
    r.clone()
}

/// Relies on KnowledgeBase::new: a fresh knowledge base holds no rule.
#[verifier::external_body]
pub fn knowledge_base_new(name: &str) -> (r: rust_rule_engine::KnowledgeBase)
    ensures
        kb_rules_ascii(r),
{
    rust_rule_engine::KnowledgeBase::new(name)
}

/// Relies on KnowledgeBase::add_rule: adds the one rule (a duplicate rule
/// name is a typed error).
#[verifier::external_body]
pub fn knowledge_base_add_rule(
    kb: &mut rust_rule_engine::KnowledgeBase,
    rule: rust_rule_engine::Rule,
) -> (r: Result<(), String>)
    requires
        kb_rules_ascii(*old(kb)),
        rule_ascii(rule),
    ensures
        kb_rules_ascii(*final(kb)),
{
    match kb.add_rule(rule) {
        Ok(_) => Ok(()),
        Err(e) => Err(e.to_string()),
    }
}

/// Relies on RustRuleEngine::new: the engine holds exactly the knowledge
/// base's rules, under the default configuration (bounded execution cycles).
#[verifier::external_body]
pub fn engine_new(kb: rust_rule_engine::KnowledgeBase) -> (r: rust_rule_engine::RustRuleEngine)
    requires
        kb_rules_ascii(kb),
    ensures
        engine_rules_ascii(r),
{
    rust_rule_engine::RustRuleEngine::new(kb)
}

/// Relies on RustRuleEngine::execute: with every held rule's text ASCII the
/// call returns (its expression evaluator byte-indexes only rule text, and
/// the default configuration bounds the execution cycles); execution either
/// completes or fails, and may mutate the fact collection in place; nothing
/// more is promised of the facts afterwards.
#[verifier::external_body]
pub fn engine_execute(
    engine: &mut rust_rule_engine::RustRuleEngine,
    facts: &mut rust_rule_engine::Facts,
) -> (r: Result<(), String>)
    requires
        engine_rules_ascii(*old(engine)),
{
    match engine.execute(facts) {
        Ok(_) => Ok(()),
        Err(e) => Err(e.to_string()),
    }
}

/// A pairwise copy of a rule list.
pub fn clone_rules(rules: &Vec<rust_rule_engine::Rule>) -> (r: Vec<rust_rule_engine::Rule>)
    requires
        rules_all_ascii(rules@),
    ensures
        r@.len() == rules@.len(),
        rules_all_ascii(r@),
{
    let n = rules.len();
    let mut r: Vec<rust_rule_engine::Rule> = Vec::new();
    let mut i: usize = 0;
    while i < n
        invariant
            n == rules@.len(),
            rules_all_ascii(rules@),
            i <= n,
            r@.len() == i,
            rules_all_ascii(r@),
        decreases n - i,
    {
        r.push(clone_rule(&rules[i]));
        i = i + 1;
    }
    r
}

} // verus!
